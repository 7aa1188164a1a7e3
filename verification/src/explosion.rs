//! Explosions: short animations that play once where something was destroyed.

use crate::anim::AnimationTimer;
use crate::math::Vec2;
use crate::random::random_range;
use crate::timer::TimerView;
use vstd::prelude::*;

verus! {

/// Width of an explosion.
pub const SIZE_X: i32 = 500_000;

/// Height of an explosion.
pub const SIZE_Y: i32 = 500_000;

/// The sheet of the animation has this many columns of frames.
pub const SHEET_COLUMNS: usize = 4;

/// The sheet of the animation has this many rows of frames.
pub const SHEET_ROWS: usize = 4;

/// Half a turn, in millionths of a radian, rounded up.
pub const HALF_TURN: i32 = 3_141_593;

/// An explosion on the field.
#[derive(Debug, Clone, Copy)]
pub struct Explosion {
    pub position: Vec2,
    /// The angle, in millionths of a radian, at which the explosion is drawn.
    pub angle: i32,
    pub animation: AnimationTimer,
}

impl Explosion {
    /// An explosion at `pos`, drawn at `angle`, that shows each frame of its
    /// sheet for `frame_duration` nanoseconds and then stops.
    pub fn with_angle(pos: Vec2, frame_duration: u64, angle: i32) -> (r: Explosion)
        requires
            frame_duration > 0,
        ensures
            r.position == pos,
            r.angle == angle,
            r.animation.timer@ == TimerView::fresh(frame_duration as nat, true),
            r.animation.frames_left == SHEET_COLUMNS * SHEET_ROWS,
            !r.animation.is_infinite,
    {
        Explosion {
            position: pos,
            angle,
            animation: AnimationTimer::finite(frame_duration, SHEET_COLUMNS * SHEET_ROWS),
        }
    }

    /// An explosion at `pos` that shows each frame of its sheet for
    /// `frame_duration` nanoseconds and then stops. The angle at which it is
    /// drawn is less than half a turn and drawn at random.
    pub fn spawn(pos: Vec2, frame_duration: u64) -> (r: Explosion)
        requires
            frame_duration > 0,
        ensures
            r.position == pos,
            0 <= r.angle < HALF_TURN,
            r.animation.timer@ == TimerView::fresh(frame_duration as nat, true),
            r.animation.frames_left == SHEET_COLUMNS * SHEET_ROWS,
            !r.animation.is_infinite,
    {
        let angle = random_range(0, HALF_TURN as i64) as i32;
        Explosion::with_angle(pos, frame_duration, angle)
    }
}

/// Tells for each explosion, given by its animation, whether the animation
/// has played to the end and the explosion is to be removed.
pub fn process(animations: &Vec<AnimationTimer>) -> (gone: Vec<bool>)
    ensures
        gone.len() == animations.len(),
        forall|i: int| 0 <= i < animations.len() ==> gone[i] == animations[i].timer@.paused,
{
    let mut gone: Vec<bool> = Vec::new();
    let mut i: usize = 0;
    while i < animations.len()
        invariant
            i <= animations.len(),
            gone.len() == i,
            forall|k: int| 0 <= k < i ==> gone[k] == animations[k].timer@.paused,
        decreases animations.len() - i,
    {
        gone.push(animations[i].stopped());
        i += 1;
    }
    gone
}

} // verus!
