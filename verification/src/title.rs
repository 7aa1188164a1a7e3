//! The title screen: the title flies in, the instructions fade in, the game
//! waits for the player, and everything flies out again.

use crate::collision::{half, Screen, Window};
use crate::math::{clamp_i32, div_toward_zero, lemma_product_bound, quotient, saturate, Vec2, UNIT};
use crate::score::Score;
use crate::state::{Flow, FlowView, GameState, Trigger};
use crate::timer::{Timer, TimerView};
use vstd::prelude::*;

verus! {

/// The title is drawn this many times, each copy circling the same point.
pub const TITLE_SHADOWS: u8 = 3;

/// The radius of the circle while the title stands.
pub const SHADOW_RADIUS: i32 = 3_500;

/// The radius of the circle at the start of the fly-in and at the end of the
/// fly-out.
pub const SHADOW_OUTER_RADIUS: i32 = 1_500_000;

/// How opaque a copy of the title is, with `UNIT` for fully opaque.
pub const SHADOW_ALPHA: i32 = 500_000;

/// How fast the copies circle, in millionths of a radian per second.
pub const SHADOW_SPEED: i32 = 10_000_000;

/// A full turn, in millionths of a radian.
pub const FULL_TURN: i32 = 6_283_185;

/// How far above the middle of the field the title stands.
pub const TITLE_RISE: i32 = 250_000;

/// Where the instructions stand once they have faded out.
pub const INSTRUCTIONS_Y: i32 = 350_000;

/// How often the call to action blinks during the fly-out.
pub const BLINKS: i32 = 50;

/// Nanoseconds that the fly-in and the fly-out of the title take.
pub const FLY_DURATION: u64 = 2_000_000_000;

/// Nanoseconds that the fade-in of the instructions takes.
pub const INSTRUCTIONS_DURATION: u64 = 500_000_000;

/// Paces the phases of the title screen.
#[derive(Debug, Clone, Copy)]
pub struct TitleTimer(pub Timer);

impl TitleTimer {
    /// The timer as the title screen first needs it: set for the fly-in.
    pub fn new() -> (r: TitleTimer)
        ensures
            r.0@ == TimerView::fresh(FLY_DURATION as nat, true),
    {
        TitleTimer(Timer::new(FLY_DURATION, true))
    }
}

/// The part of its cycle that a timer has behind it, with `UNIT` for all.
pub open spec fn progress(timer: TimerView) -> int {
    clamp_i32((timer.elapsed * UNIT) / (timer.duration as int))
}

/// `amount` times `share`, where a share of `UNIT` is all.
pub open spec fn scaled(amount: int, share: int) -> int {
    quotient(amount * share, UNIT as int)
}

/// The radius of the circle when the given share of the fly-in has passed.
pub open spec fn flyin_radius(share: int) -> int {
    clamp_i32(SHADOW_OUTER_RADIUS - scaled(SHADOW_OUTER_RADIUS - SHADOW_RADIUS, share))
}

/// The radius of the circle when the given share of the fly-out has passed.
pub open spec fn flyout_radius(share: int) -> int {
    clamp_i32(SHADOW_RADIUS + scaled(SHADOW_OUTER_RADIUS - SHADOW_RADIUS, share))
}

/// The part of its cycle that `timer` has behind it.
fn progress_of(timer: &Timer) -> (r: i32)
    ensures
        r == progress(timer@),
        r >= 0,
{
    let elapsed: u128 = timer.elapsed() as u128;
    let duration: u128 = timer.duration() as u128;
    proof {
        lemma_product_bound(elapsed as int, UNIT as int, 0xffff_ffff_ffff_ffff, 1_000_000);
        assert(elapsed * UNIT >= 0) by (nonlinear_arith)
            requires
                elapsed >= 0,
        ;
        vstd::arithmetic::div_mod::lemma_div_pos_is_pos(elapsed * UNIT, duration as int);
    }
    let share: u128 = elapsed * (UNIT as u128) / duration;
    if share > i32::MAX as u128 {
        i32::MAX
    } else {
        share as i32
    }
}

/// `amount` times `share`, where a share of `UNIT` is all.
fn scale(amount: i32, share: i32) -> (r: i128)
    ensures
        r == scaled(amount as int, share as int),
        -0x4000_0000_0000_0000 <= r <= 0x4000_0000_0000_0000,
{
    proof {
        lemma_product_bound(amount as int, share as int, 0x8000_0000, 0x8000_0000);
    }
    div_toward_zero(amount as i128 * share as i128, UNIT as i128)
}

/// One of the copies of the title.
#[derive(Debug, Clone, Copy, PartialEq, Eq, Structural)]
pub struct TitleShadow {
    pub index: u8,
}

impl TitleShadow {
    /// The angle, in millionths of a radian, by which this copy runs ahead of
    /// the first: the copies share the circle evenly.
    pub fn angle_offset(&self) -> (r: i32)
        ensures
            r == (FULL_TURN * self.index) / (TITLE_SHADOWS as int),
    {
        FULL_TURN * (self.index as i32) / (TITLE_SHADOWS as i32)
    }

    /// The point that the copies circle: the middle of the field, raised by
    /// `TITLE_RISE`.
    pub fn center(win: &Window) -> (r: Vec2)
        ensures
            r.x == half(win.width()),
            r.y == half(UNIT as int) + TITLE_RISE,
    {
        Vec2 { x: win.middle_x(), y: win.middle_y() + TITLE_RISE }
    }
}

/// What is shown during the fly-in of the title.
#[derive(Debug, Clone, Copy, PartialEq, Eq, Structural)]
pub struct FlyInFrame {
    /// The radius of the circle on which the copies of the title fly.
    pub shadow_radius: i32,
    /// How opaque the copies are.
    pub shadow_alpha: i32,
}

/// What is shown while the instructions fade in.
#[derive(Debug, Clone, Copy, PartialEq, Eq, Structural)]
pub struct InstructionsFrame {
    /// How opaque the instructions are.
    pub alpha: i32,
    /// The height at which they stand.
    pub y: i32,
}

/// What is shown during the fly-out.
#[derive(Debug, Clone, Copy, PartialEq, Eq, Structural)]
pub struct FlyOutFrame {
    pub shadow_radius: i32,
    pub shadow_alpha: i32,
    pub instructions_alpha: i32,
    pub instructions_y: i32,
    /// Whether the call to action, which blinks, is lit.
    pub action_visible: bool,
}

/// The frame of the fly-in when `share` of it has passed: the copies of the
/// title close in from the outer circle and become more opaque.
pub open spec fn flyin_frame(share: int) -> FlyInFrame {
    FlyInFrame {
        shadow_radius: flyin_radius(share) as i32,
        shadow_alpha: scaled(SHADOW_ALPHA as int, share) as i32,
    }
}

/// The frame of the fade-in when `share` of it has passed: the instructions
/// become opaque and rise by up to a tenth of the field.
pub open spec fn instructions_frame(share: int) -> InstructionsFrame {
    InstructionsFrame { alpha: share as i32, y: (INSTRUCTIONS_Y + share / 10) as i32 }
}

/// The frame of the fly-out when `share` of it has passed: the copies of the
/// title drift out and fade, the instructions fade and sink, and the call to
/// action blinks.
pub open spec fn flyout_frame(share: int) -> FlyOutFrame {
    let rest = UNIT - share;
    FlyOutFrame {
        shadow_radius: flyout_radius(share) as i32,
        shadow_alpha: scaled(SHADOW_ALPHA as int, rest) as i32,
        instructions_alpha: rest as i32,
        instructions_y: clamp_i32(INSTRUCTIONS_Y + quotient(rest, 10)) as i32,
        action_visible: rest >= 0 && ((rest * BLINKS) / (UNIT as int)) % 2 == 1,
    }
}

/// One tick of the fly-in, which runs only in the phase of that name. When
/// the timer completes, the fade-in of the instructions is next and the timer
/// is set for it; until then there is a frame to show.
pub fn fly_in(flow: &mut Flow, timer: &mut TitleTimer, delta: u64) -> (frame: Option<FlyInFrame>)
    ensures
        !old(flow)@.in_phase(GameState::TitleFlyIn) ==> {
            &&& frame.is_none()
            &&& final(flow)@ == old(flow)@
            &&& final(timer).0@ == old(timer).0@
        },
        old(flow)@.in_phase(GameState::TitleFlyIn) && old(timer).0@.tick(
            delta as nat,
        ).just_finished ==> {
            &&& frame.is_none()
            &&& final(flow)@ == (FlowView { state: GameState::TitleInstructionsFlyIn, moved: true })
            &&& final(timer).0@ == (TimerView {
                duration: INSTRUCTIONS_DURATION as nat,
                ..old(timer).0@.tick(delta as nat)
            })
        },
        old(flow)@.in_phase(GameState::TitleFlyIn) && !old(timer).0@.tick(
            delta as nat,
        ).just_finished ==> {
            &&& frame == Some(flyin_frame(progress(old(timer).0@.tick(delta as nat))))
            &&& final(flow)@ == old(flow)@
            &&& final(timer).0@ == old(timer).0@.tick(delta as nat)
        },
{
    if !flow.in_phase(GameState::TitleFlyIn) {
        return None;
    }
    timer.0.tick(delta);
    if timer.0.just_finished() {
        timer.0.set_duration(INSTRUCTIONS_DURATION);
        flow.fire(Trigger::TimerElapsed);
        return None;
    }
    let share = progress_of(&timer.0);
    Some(
        FlyInFrame {
            shadow_radius: saturate(
                SHADOW_OUTER_RADIUS as i128 - scale(SHADOW_OUTER_RADIUS - SHADOW_RADIUS, share),
            ),
            shadow_alpha: scale(SHADOW_ALPHA, share) as i32,
        },
    )
}

/// One tick of the fade-in of the instructions, which runs only in the phase
/// of that name. When the timer completes, the title stands and the timer is
/// set for the fly-out; until then there is a frame to show.
pub fn instructions_fly_in(flow: &mut Flow, timer: &mut TitleTimer, delta: u64) -> (frame: Option<
    InstructionsFrame,
>)
    ensures
        !old(flow)@.in_phase(GameState::TitleInstructionsFlyIn) ==> {
            &&& frame.is_none()
            &&& final(flow)@ == old(flow)@
            &&& final(timer).0@ == old(timer).0@
        },
        old(flow)@.in_phase(GameState::TitleInstructionsFlyIn) && old(timer).0@.tick(
            delta as nat,
        ).just_finished ==> {
            &&& frame.is_none()
            &&& final(flow)@ == (FlowView { state: GameState::Title, moved: true })
            &&& final(timer).0@ == (TimerView {
                duration: FLY_DURATION as nat,
                ..old(timer).0@.tick(delta as nat)
            })
        },
        old(flow)@.in_phase(GameState::TitleInstructionsFlyIn) && !old(timer).0@.tick(
            delta as nat,
        ).just_finished ==> {
            &&& frame == Some(instructions_frame(progress(old(timer).0@.tick(delta as nat))))
            &&& final(flow)@ == old(flow)@
            &&& final(timer).0@ == old(timer).0@.tick(delta as nat)
        },
{
    if !flow.in_phase(GameState::TitleInstructionsFlyIn) {
        return None;
    }
    timer.0.tick(delta);
    if timer.0.just_finished() {
        timer.0.set_duration(FLY_DURATION);
        flow.fire(Trigger::TimerElapsed);
        return None;
    }
    let share = progress_of(&timer.0);
    Some(InstructionsFrame { alpha: share, y: INSTRUCTIONS_Y + share / 10 })
}

/// One tick of the fly-out, which runs only in the phase of that name. When
/// the timer completes, the title screen is gone and the ship slides in;
/// until then there is a frame to show.
pub fn fly_out(flow: &mut Flow, timer: &mut TitleTimer, delta: u64) -> (frame: Option<FlyOutFrame>)
    ensures
        !old(flow)@.in_phase(GameState::TitleFlyOut) ==> {
            &&& frame.is_none()
            &&& final(flow)@ == old(flow)@
            &&& final(timer).0@ == old(timer).0@
        },
        old(flow)@.in_phase(GameState::TitleFlyOut) ==> final(timer).0@ == old(timer).0@.tick(
            delta as nat,
        ),
        old(flow)@.in_phase(GameState::TitleFlyOut) && final(timer).0@.just_finished ==> {
            &&& frame.is_none()
            &&& final(flow)@ == (FlowView { state: GameState::PlayerSlideOut, moved: true })
        },
        old(flow)@.in_phase(GameState::TitleFlyOut) && !final(timer).0@.just_finished ==> {
            &&& frame == Some(flyout_frame(progress(final(timer).0@)))
            &&& final(flow)@ == old(flow)@
        },
{
    if !flow.in_phase(GameState::TitleFlyOut) {
        return None;
    }
    timer.0.tick(delta);
    if timer.0.just_finished() {
        flow.fire(Trigger::TimerElapsed);
        return None;
    }
    let share = progress_of(&timer.0);
    let rest: i32 = UNIT - share;
    let blink: i128 = if rest >= 0 {
        rest as i128 * BLINKS as i128 / UNIT as i128
    } else {
        0
    };
    Some(
        FlyOutFrame {
            shadow_radius: saturate(
                SHADOW_RADIUS as i128 + scale(SHADOW_OUTER_RADIUS - SHADOW_RADIUS, share),
            ),
            shadow_alpha: scale(SHADOW_ALPHA, rest) as i32,
            instructions_alpha: rest,
            instructions_y: saturate(
                INSTRUCTIONS_Y as i128 + div_toward_zero(rest as i128, 10),
            ),
            action_visible: rest >= 0 && blink % 2 == 1,
        },
    )
}

/// Waits on the title screen for the confirm key. Once it is pressed the
/// score starts from zero and the title flies out. Tells whether that
/// happened, in which case the music changes and the keys pressed so far are
/// forgotten.
pub fn wait_for_enter(flow: &mut Flow, confirm: bool, score: &mut Score) -> (taken: bool)
    ensures
        taken == (confirm && old(flow)@.in_phase(GameState::Title)),
        taken ==> final(flow)@ == (FlowView { state: GameState::TitleFlyOut, moved: true })
            && final(score).score == 0,
        !taken ==> final(flow)@ == old(flow)@ && *final(score) == *old(score),
{
    if confirm && flow.in_phase(GameState::Title) {
        score.clear();
        flow.fire(Trigger::Confirm);
        true
    } else {
        false
    }
}

} // verus!
