//! The game-over screen and the way back into a game or to the title.

use crate::score::Score;
use crate::state::{Flow, FlowView, GameState, Trigger};
use crate::timer::{Timer, TimerView};
use vstd::prelude::*;

verus! {

/// Nanoseconds between the moment the field is empty and the new game.
pub const NEW_GAME_DELAY: u64 = 500_000_000;

/// Delays the new game after the field has emptied.
#[derive(Debug, Clone, Copy)]
pub struct NewGameTimer {
    pub timer: Timer,
}

impl NewGameTimer {
    /// A delay of `NEW_GAME_DELAY` that has not begun.
    pub fn new() -> (r: NewGameTimer)
        ensures
            r.timer@ == TimerView::fresh(NEW_GAME_DELAY as nat, true),
    {
        NewGameTimer { timer: Timer::new(NEW_GAME_DELAY, true) }
    }
}

/// The text of the game-over screen.
#[derive(Debug, Clone, Copy, PartialEq, Eq, Structural)]
pub struct GameOverText;

impl GameOverText {
    /// The text for a player who can pay for a continue, or for one who
    /// cannot and restarts from zero.
    pub open spec fn text(can_continue: bool) -> Seq<char> {
        if can_continue {
            "-= GAME OVER =-\n\nPRESS \"ENTER\" TO SPEND 50 POINTS AND CONTINUE\n\nPRESS \"Q\" TO EXIT"@
        } else {
            "-= GAME OVER =-\n\nPRESS \"ENTER\" FOR QUICK RESTART\n\nPRESS \"Q\" TO EXIT"@
        }
    }

    /// The text of the game-over screen.
    pub fn gg_text(can_continue: bool) -> (r: String)
        ensures
            r@ == GameOverText::text(can_continue),
    {
        if can_continue {
            "-= GAME OVER =-\n\nPRESS \"ENTER\" TO SPEND 50 POINTS AND CONTINUE\n\nPRESS \"Q\" TO EXIT".to_owned()
        } else {
            "-= GAME OVER =-\n\nPRESS \"ENTER\" FOR QUICK RESTART\n\nPRESS \"Q\" TO EXIT".to_owned()
        }
    }
}

/// The text that comes up with the game-over screen: it offers a continue to
/// a player whose score covers the price.
pub fn show_game_over_text(score: &Score) -> (r: String)
    ensures
        r@ == GameOverText::text(score.score >= Score::CONTINUE_COST),
{
    GameOverText::gg_text(score.can_continue())
}

/// Waits on the game-over screen for the confirm key. Once it is pressed the
/// game waits for the field to empty. Tells whether that happened, in which
/// case the text goes down and the keys pressed so far are forgotten.
pub fn wait_for_continue(flow: &mut Flow, confirm: bool) -> (taken: bool)
    ensures
        taken == (confirm && old(flow)@.in_phase(GameState::GameOver)),
        final(flow)@ == if taken {
            FlowView { state: GameState::GameOverWaitingForEmptyField, moved: true }
        } else {
            old(flow)@
        },
{
    if confirm && flow.in_phase(GameState::GameOver) {
        flow.fire(Trigger::Confirm);
        true
    } else {
        false
    }
}

/// Appends `more` to `all`.
fn append(all: &mut Vec<u64>, more: &Vec<u64>)
    ensures
        final(all)@ == old(all)@ + more@,
{
    let mut i: usize = 0;
    while i < more.len()
        invariant
            i <= more.len(),
            all@ == old(all)@ + more@.take(i as int),
        decreases more.len() - i,
    {
        all.push(more[i]);
        i += 1;
        assert(more@.take(i as int) == more@.take(i - 1).push(more[i - 1]));
    }
    assert(more@.take(i as int) == more@);
}

/// Waits on the game-over screen for the quit key. Once it is pressed the
/// title comes up, and everything that is on the field goes at once: the
/// result names every ship, enemy, bullet and explosion. Without the key, or
/// on another screen, nothing happens and nothing is named.
pub fn wait_for_exit(
    flow: &mut Flow,
    quit: bool,
    players: &Vec<u64>,
    enemies: &Vec<u64>,
    bullets: &Vec<u64>,
    explosions: &Vec<u64>,
) -> (removed: Vec<u64>)
    ensures
        quit && old(flow)@.in_phase(GameState::GameOver) ==> {
            &&& final(flow)@ == (FlowView { state: GameState::TitleFlyIn, moved: true })
            &&& removed@ == players@ + enemies@ + bullets@ + explosions@
        },
        !(quit && old(flow)@.in_phase(GameState::GameOver)) ==> {
            &&& final(flow)@ == old(flow)@
            &&& removed@ == Seq::<u64>::empty()
        },
{
    let mut removed: Vec<u64> = Vec::new();
    if quit && flow.in_phase(GameState::GameOver) {
        append(&mut removed, players);
        append(&mut removed, enemies);
        append(&mut removed, bullets);
        append(&mut removed, explosions);
        flow.fire(Trigger::Quit);
    }
    removed
}

/// Waits for the field to empty after the player has asked to go on. Once no
/// ship, enemy, bullet or explosion is left, the delay before the new game
/// starts.
pub fn start_new_game_timer_if_field_is_empty(
    flow: &mut Flow,
    players: usize,
    enemies: usize,
    bullets: usize,
    explosions: usize,
)
    ensures
        final(flow)@ == if old(flow)@.in_phase(GameState::GameOverWaitingForEmptyField) && players
            == 0 && enemies == 0 && bullets == 0 && explosions == 0 {
            FlowView { state: GameState::GameOverWaitingForTimer, moved: true }
        } else {
            old(flow)@
        },
{
    if flow.in_phase(GameState::GameOverWaitingForEmptyField) && players == 0 && enemies == 0
        && bullets == 0 && explosions == 0 {
        flow.fire(Trigger::FieldEmpty);
    }
}

/// Lets the delay before the new game run. When it completes, the continue is
/// paid for and a fresh ship slides in. Outside the phase of the delay
/// nothing happens.
pub fn start_new_game_on_timer(
    flow: &mut Flow,
    timer: &mut NewGameTimer,
    delta: u64,
    score: &mut Score,
)
    ensures
        !old(flow)@.in_phase(GameState::GameOverWaitingForTimer) ==> {
            &&& final(flow)@ == old(flow)@
            &&& final(timer).timer@ == old(timer).timer@
            &&& *final(score) == *old(score)
        },
        old(flow)@.in_phase(GameState::GameOverWaitingForTimer) ==> {
            &&& final(timer).timer@ == old(timer).timer@.tick(delta as nat)
            &&& final(flow)@ == if final(timer).timer@.just_finished {
                FlowView { state: GameState::PlayerSlideOut, moved: true }
            } else {
                old(flow)@
            }
            &&& final(score).score == if !final(timer).timer@.just_finished {
                old(score).score as int
            } else if old(score).score >= Score::CONTINUE_COST {
                old(score).score - Score::CONTINUE_COST
            } else {
                0
            }
        },
{
    if !flow.in_phase(GameState::GameOverWaitingForTimer) {
        return ;
    }
    timer.timer.tick(delta);
    if timer.timer.just_finished() {
        score.buy_continue();
        flow.fire(Trigger::TimerElapsed);
    }
}

} // verus!
