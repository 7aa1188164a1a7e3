//! Sprite animation, and the wait for the assets at start-up.

use crate::state::{Flow, FlowView, GameState, Trigger};
use crate::timer::{Timer, TimerView};
use vstd::prelude::*;

verus! {

/// Paces the frames of an animated sprite.
#[derive(Debug, Clone, Copy)]
pub struct AnimationTimer {
    /// Completes whenever the next frame is due.
    pub timer: Timer,
    /// The number of frames of an animation that plays once.
    pub frames_left: usize,
    /// Whether the animation starts over after its last frame.
    pub is_infinite: bool,
}

impl AnimationTimer {
    /// An animation that shows a frame for `period` nanoseconds and starts
    /// over after the last.
    pub fn infinite(period: u64) -> (r: AnimationTimer)
        requires
            period > 0,
        ensures
            r.timer@ == TimerView::fresh(period as nat, true),
            r.frames_left == 0,
            r.is_infinite,
    {
        AnimationTimer { timer: Timer::new(period, true), frames_left: 0, is_infinite: true }
    }

    /// An animation of `frames` frames that shows each for `period`
    /// nanoseconds and stops on the last.
    pub fn finite(period: u64, frames: usize) -> (r: AnimationTimer)
        requires
            period > 0,
        ensures
            r.timer@ == TimerView::fresh(period as nat, true),
            r.frames_left == frames,
            !r.is_infinite,
    {
        AnimationTimer { timer: Timer::new(period, true), frames_left: frames, is_infinite: false }
    }

    /// Whether the animation has played to its end.
    pub fn stopped(&self) -> (r: bool)
        ensures
            r == self.timer@.paused,
    {
        self.timer.paused()
    }
}

/// A sprite: its animation, the frame it shows, and the number of frames in
/// its sheet.
#[derive(Debug, Clone, Copy)]
pub struct Sprite {
    pub animation: AnimationTimer,
    pub index: usize,
    pub frames: usize,
}

/// Whether a sprite shows a new frame after a tick.
pub open spec fn frame_due(before: Sprite, delta: nat) -> bool {
    !before.animation.timer@.paused && before.animation.timer@.tick(delta).just_finished
}

/// The frame a sprite shows after a tick. When a frame is due the sprite
/// shows the next one; after the last frame an animation that repeats starts
/// over at the first, and one that does not stays on the last.
pub open spec fn frame_after(before: Sprite, delta: nat) -> usize {
    if !frame_due(before, delta) {
        before.index
    } else if before.index + 1 < before.frames {
        (before.index + 1) as usize
    } else if before.animation.is_infinite {
        0
    } else {
        before.index
    }
}

/// The timer of a sprite after a tick. A stopped animation stays as it is. A
/// running one ticks, and stops when a frame is due after the last frame of
/// an animation that does not repeat.
pub open spec fn timer_after_frame(before: Sprite, delta: nat) -> TimerView {
    let ticked = before.animation.timer@.tick(delta);
    if before.animation.timer@.paused {
        before.animation.timer@
    } else if ticked.just_finished && before.index + 1 >= before.frames
        && !before.animation.is_infinite {
        TimerView { paused: true, ..ticked }
    } else {
        ticked
    }
}

/// Whether `after` is what a tick of `delta` nanoseconds makes of `before`.
pub open spec fn is_animated(before: Sprite, after: Sprite, delta: nat) -> bool {
    &&& after.index == frame_after(before, delta)
    &&& after.animation.timer@ == timer_after_frame(before, delta)
    &&& after.animation.frames_left == before.animation.frames_left
    &&& after.animation.is_infinite == before.animation.is_infinite
    &&& after.frames == before.frames
}

/// One tick of the animation of one sprite.
pub fn animate_one(sprite: &mut Sprite, delta: u64)
    ensures
        is_animated(*old(sprite), *final(sprite), delta as nat),
{
    if sprite.animation.timer.paused() {
        return ;
    }
    sprite.animation.timer.tick(delta);
    if sprite.animation.timer.just_finished() {
        if sprite.index < usize::MAX && sprite.index + 1 < sprite.frames {
            sprite.index = sprite.index + 1;
        } else if sprite.animation.is_infinite {
            sprite.index = 0;
        } else {
            sprite.animation.timer.pause();
        }
    }
}

/// One tick of the animation of every sprite.
pub fn animate_sprite(sprites: &mut Vec<Sprite>, delta: u64)
    ensures
        final(sprites).len() == old(sprites).len(),
        forall|i: int|
            0 <= i < old(sprites).len() ==> #[trigger] is_animated(
                old(sprites)[i],
                final(sprites)[i],
                delta as nat,
            ),
{
    let mut i: usize = 0;
    while i < sprites.len()
        invariant
            i <= sprites.len(),
            sprites.len() == old(sprites).len(),
            forall|k: int|
                0 <= k < i ==> #[trigger] is_animated(old(sprites)[k], sprites[k], delta as nat),
            forall|k: int| i <= k < sprites.len() ==> sprites[k] == old(sprites)[k],
        decreases sprites.len() - i,
    {
        let mut sprite = sprites[i];
        animate_one(&mut sprite, delta);
        sprites.set(i, sprite);
        i += 1;
    }
}

/// How far the loading of a group of assets has come.
#[derive(Debug, Clone, Copy, PartialEq, Eq, Hash, Structural)]
pub enum LoadState {
    NotLoaded,
    Loading,
    Loaded,
    Failed,
    Unloaded,
}

/// What the loading screen does next.
#[derive(Debug, Clone, Copy, PartialEq, Eq, Hash, Structural)]
pub enum LoadingAction {
    /// Keep waiting.
    Wait,
    /// Take the loading screen down; the title comes up.
    Finish,
    /// Tell the player that loading has failed, and stay.
    ReportFailure,
}

/// What the loading screen does for a state of the assets. It is up only in
/// the phase `Loading`.
pub open spec fn loading_action(flow: FlowView, assets: LoadState) -> LoadingAction {
    if !flow.in_phase(GameState::Loading) {
        LoadingAction::Wait
    } else {
        match assets {
            LoadState::Loaded => LoadingAction::Finish,
            LoadState::Failed => LoadingAction::ReportFailure,
            _ => LoadingAction::Wait,
        }
    }
}

/// One tick of the loading screen. Once all assets are loaded the phase ends
/// and the title flies in. A failure is reported and changes nothing else; the
/// game stays where it is.
pub fn check_assets_loaded(flow: &mut Flow, assets: LoadState) -> (action: LoadingAction)
    ensures
        action == loading_action(old(flow)@, assets),
        final(flow)@ == if action == LoadingAction::Finish {
            FlowView { state: GameState::TitleFlyIn, moved: true }
        } else {
            old(flow)@
        },
{
    if !flow.in_phase(GameState::Loading) {
        return LoadingAction::Wait;
    }
    match assets {
        LoadState::Loaded => {
            flow.fire(Trigger::AssetsLoaded);
            LoadingAction::Finish
        },
        LoadState::Failed => LoadingAction::ReportFailure,
        _ => LoadingAction::Wait,
    }
}

} // verus!
