//! The simulation core of a small side-scrolling shoot-'em-up.
//!
//! Everything here is deterministic integer arithmetic: lengths are counted in
//! millionths of the field's height, speeds in millionths of the field's height
//! per second, angles in millionths of a radian, and time in nanoseconds. The
//! engine that draws, plays sound and reads the keyboard lives outside this
//! crate. Once per tick it hands in what it has seen, and it carries out what
//! the functions here hand back: what to spawn, what to remove, what to show.
//!
//! The only thing left to chance is what `rand` draws: where an enemy appears,
//! how its course deviates, when it first fires, by how much it misses, and at
//! which angle an explosion is drawn.

pub mod anim;
pub mod audio;
pub mod background;
pub mod bullet;
pub mod collision;
pub mod enemy;
pub mod explosion;
pub mod game_over;
pub mod math;
pub mod player;
mod random;
pub mod score;
pub mod state;
pub mod timer;
pub mod title;
