//! The phases of the game and the rules that lead from one to the next.

use vstd::prelude::*;

verus! {

/// The phase the game is in. Exactly one is active at any time.
#[derive(Debug, Clone, Copy, PartialEq, Eq, Hash, Structural)]
pub enum GameState {
    Loading,
    TitleFlyIn,
    TitleInstructionsFlyIn,
    Title,
    TitleFlyOut,
    PlayerSlideOut,
    Game,
    GameOver,
    GameOverWaitingForEmptyField,
    GameOverWaitingForTimer,
}

/// What can end a phase.
#[derive(Debug, Clone, Copy, PartialEq, Eq, Hash, Structural)]
pub enum Trigger {
    /// Every asset the game needs has finished loading.
    AssetsLoaded,
    /// The timer that paces the current phase has completed.
    TimerElapsed,
    /// The player pressed the confirm key.
    Confirm,
    /// The player pressed the quit key.
    Quit,
    /// The ship has finished sliding into the field.
    PlayerInField,
    /// The ship was hit.
    PlayerDestroyed,
    /// No ship, enemy, bullet or explosion is left on the field.
    FieldEmpty,
}

impl GameState {
    /// The phase that follows `self` when `trigger` happens, if there is one.
    pub open spec fn successor(self, trigger: Trigger) -> Option<GameState> {
        match (self, trigger) {
            (GameState::Loading, Trigger::AssetsLoaded) => Some(GameState::TitleFlyIn),
            (GameState::TitleFlyIn, Trigger::TimerElapsed) => Some(
                GameState::TitleInstructionsFlyIn,
            ),
            (GameState::TitleInstructionsFlyIn, Trigger::TimerElapsed) => Some(GameState::Title),
            (GameState::Title, Trigger::Confirm) => Some(GameState::TitleFlyOut),
            (GameState::TitleFlyOut, Trigger::TimerElapsed) => Some(GameState::PlayerSlideOut),
            (GameState::PlayerSlideOut, Trigger::PlayerInField) => Some(GameState::Game),
            (GameState::Game, Trigger::PlayerDestroyed) => Some(GameState::GameOver),
            (GameState::GameOver, Trigger::Confirm) => Some(
                GameState::GameOverWaitingForEmptyField,
            ),
            (GameState::GameOver, Trigger::Quit) => Some(GameState::TitleFlyIn),
            (GameState::GameOverWaitingForEmptyField, Trigger::FieldEmpty) => Some(
                GameState::GameOverWaitingForTimer,
            ),
            (GameState::GameOverWaitingForTimer, Trigger::TimerElapsed) => Some(
                GameState::PlayerSlideOut,
            ),
            _ => None,
        }
    }

    /// The phase after `trigger`: the successor where the trigger ends this
    /// phase, the phase itself where it does not.
    pub open spec fn after(self, trigger: Trigger) -> GameState {
        match self.successor(trigger) {
            Some(next) => next,
            None => self,
        }
    }

    /// The place of a phase in the order in which a session walks through them.
    pub open spec fn rank(self) -> nat {
        match self {
            GameState::Loading => 0,
            GameState::TitleFlyIn => 1,
            GameState::TitleInstructionsFlyIn => 2,
            GameState::Title => 3,
            GameState::TitleFlyOut => 4,
            GameState::PlayerSlideOut => 5,
            GameState::Game => 6,
            GameState::GameOver => 7,
            GameState::GameOverWaitingForEmptyField => 8,
            GameState::GameOverWaitingForTimer => 9,
        }
    }

    /// Looks the transition up in the table of `successor`.
    pub fn next(self, trigger: Trigger) -> (r: Option<GameState>)
        ensures
            r == self.successor(trigger),
    {
        match self {
            GameState::Loading => match trigger {
                Trigger::AssetsLoaded => Some(GameState::TitleFlyIn),
                _ => None,
            },
            GameState::TitleFlyIn => match trigger {
                Trigger::TimerElapsed => Some(GameState::TitleInstructionsFlyIn),
                _ => None,
            },
            GameState::TitleInstructionsFlyIn => match trigger {
                Trigger::TimerElapsed => Some(GameState::Title),
                _ => None,
            },
            GameState::Title => match trigger {
                Trigger::Confirm => Some(GameState::TitleFlyOut),
                _ => None,
            },
            GameState::TitleFlyOut => match trigger {
                Trigger::TimerElapsed => Some(GameState::PlayerSlideOut),
                _ => None,
            },
            GameState::PlayerSlideOut => match trigger {
                Trigger::PlayerInField => Some(GameState::Game),
                _ => None,
            },
            GameState::Game => match trigger {
                Trigger::PlayerDestroyed => Some(GameState::GameOver),
                _ => None,
            },
            GameState::GameOver => match trigger {
                Trigger::Confirm => Some(GameState::GameOverWaitingForEmptyField),
                Trigger::Quit => Some(GameState::TitleFlyIn),
                _ => None,
            },
            GameState::GameOverWaitingForEmptyField => match trigger {
                Trigger::FieldEmpty => Some(GameState::GameOverWaitingForTimer),
                _ => None,
            },
            GameState::GameOverWaitingForTimer => match trigger {
                Trigger::TimerElapsed => Some(GameState::PlayerSlideOut),
                _ => None,
            },
        }
    }

    /// Applies `trigger`: moves to the successor, or stays.
    pub fn advance(self, trigger: Trigger) -> (r: GameState)
        ensures
            r == self.after(trigger),
    {
        match self.next(trigger) {
            Some(next) => next,
            None => self,
        }
    }
}

/// The mathematical state of a [`Flow`].
pub struct FlowView {
    /// The phase the game is in.
    pub state: GameState,
    /// Whether the phase has changed in the running tick.
    pub moved: bool,
}

impl FlowView {
    /// Whether the game is in `phase` and has been since before the running
    /// tick: only then do the rules of the phase apply.
    pub open spec fn in_phase(self, phase: GameState) -> bool {
        self.state == phase && !self.moved
    }

    /// The state at the start of the next tick.
    pub open spec fn begin_tick(self) -> FlowView {
        FlowView { moved: false, ..self }
    }

    /// Whether `trigger` changes the phase: it ends the phase the game is in,
    /// and the phase has not changed in this tick already.
    pub open spec fn fires(self, trigger: Trigger) -> bool {
        !self.moved && self.state.successor(trigger).is_some()
    }

    /// The state after `trigger`.
    pub open spec fn fire(self, trigger: Trigger) -> FlowView {
        if self.fires(trigger) {
            FlowView { state: self.state.successor(trigger).unwrap(), moved: true }
        } else {
            self
        }
    }

    /// The state after the triggers `triggers`, first to last.
    pub open spec fn fire_all(self, triggers: Seq<Trigger>) -> FlowView
        decreases triggers.len(),
    {
        if triggers.len() == 0 {
            self
        } else {
            self.fire(triggers[0]).fire_all(triggers.skip(1))
        }
    }

    /// How many of the triggers `triggers` change the phase.
    pub open spec fn transitions(self, triggers: Seq<Trigger>) -> nat
        decreases triggers.len(),
    {
        if triggers.len() == 0 {
            0
        } else {
            (if self.fires(triggers[0]) {
                1nat
            } else {
                0nat
            }) + self.fire(triggers[0]).transitions(triggers.skip(1))
        }
    }
}

/// The phase of the game, which changes at most once in a tick.
#[derive(Debug, Clone, Copy)]
pub struct Flow {
    state: GameState,
    moved: bool,
}

impl View for Flow {
    type V = FlowView;

    closed spec fn view(&self) -> FlowView {
        FlowView { state: self.state, moved: self.moved }
    }
}

impl Flow {
    /// The flow of a game that has just been started.
    pub fn new() -> (r: Flow)
        ensures
            r@ == (FlowView { state: GameState::Loading, moved: false }),
    {
        Flow { state: GameState::Loading, moved: false }
    }

    /// The flow of a game that has been in `state` since before the tick.
    pub fn at(state: GameState) -> (r: Flow)
        ensures
            r@ == (FlowView { state, moved: false }),
    {
        Flow { state, moved: false }
    }

    /// The phase the game is in.
    pub fn state(&self) -> (r: GameState)
        ensures
            r == self@.state,
    {
        self.state
    }

    /// Whether the phase has changed in the running tick.
    pub fn moved(&self) -> (r: bool)
        ensures
            r == self@.moved,
    {
        self.moved
    }

    /// Whether the rules of `phase` apply in the running tick.
    pub fn in_phase(&self, phase: GameState) -> (r: bool)
        ensures
            r == self@.in_phase(phase),
    {
        self.state == phase && !self.moved
    }

    /// Starts a tick: the phase may change again.
    pub fn begin_tick(&mut self)
        ensures
            final(self)@ == old(self)@.begin_tick(),
    {
        self.moved = false;
    }

    /// Lets `trigger` happen, and tells whether it has changed the phase.
    pub fn fire(&mut self, trigger: Trigger) -> (fired: bool)
        ensures
            fired == old(self)@.fires(trigger),
            final(self)@ == old(self)@.fire(trigger),
    {
        if self.moved {
            return false;
        }
        match self.state.next(trigger) {
            Some(next) => {
                self.state = next;
                self.moved = true;
                true
            },
            None => false,
        }
    }
}

/// Whatever happens in a tick, the phase changes at most once in it, and then
/// to a successor of the phase in which the tick began.
pub proof fn lemma_one_transition_per_tick(flow: FlowView, triggers: Seq<Trigger>)
    ensures
        flow.begin_tick().transitions(triggers) <= 1,
        flow.begin_tick().transitions(triggers) == 0 ==> flow.begin_tick().fire_all(triggers)
            == flow.begin_tick(),
        flow.begin_tick().transitions(triggers) == 1 ==> exists|i: int|
            0 <= i < triggers.len() && flow.begin_tick().fire_all(triggers) == (FlowView {
                state: flow.state.successor(#[trigger] triggers[i]).unwrap(),
                moved: true,
            }) && flow.state.successor(triggers[i]).is_some(),
    decreases triggers.len(),
{
    let start = flow.begin_tick();
    if triggers.len() > 0 {
        if start.fires(triggers[0]) {
            lemma_nothing_after_transition(start.fire(triggers[0]), triggers.skip(1));
            assert(start.fire_all(triggers) == (FlowView {
                state: flow.state.successor(triggers[0]).unwrap(),
                moved: true,
            }));
        } else {
            lemma_one_transition_per_tick(flow, triggers.skip(1));
            if start.transitions(triggers.skip(1)) == 1 {
                let i = choose|i: int|
                    0 <= i < triggers.skip(1).len() && start.fire_all(triggers.skip(1))
                        == (FlowView {
                        state: flow.state.successor(#[trigger] triggers.skip(1)[i]).unwrap(),
                        moved: true,
                    }) && flow.state.successor(triggers.skip(1)[i]).is_some();
                assert(triggers[i + 1] == triggers.skip(1)[i]);
            }
        }
    }
}

/// Once the phase has changed in a tick, no trigger changes it again.
proof fn lemma_nothing_after_transition(flow: FlowView, triggers: Seq<Trigger>)
    requires
        flow.moved,
    ensures
        flow.transitions(triggers) == 0,
        flow.fire_all(triggers) == flow,
    decreases triggers.len(),
{
    if triggers.len() > 0 {
        lemma_nothing_after_transition(flow, triggers.skip(1));
    }
}

/// Every transition leads one step down the order of the phases, with two
/// exceptions that close the loop: the restart delay leads back to the
/// slide-in of a fresh ship, and quitting from the game-over screen leads back
/// to the title.
pub proof fn lemma_transitions_are_linear(from: GameState, trigger: Trigger)
    ensures
        match from.successor(trigger) {
            Some(to) => to.rank() == from.rank() + 1 || (from == GameState::GameOverWaitingForTimer
                && to == GameState::PlayerSlideOut) || (from == GameState::GameOver && trigger
                == Trigger::Quit && to == GameState::TitleFlyIn),
            None => true,
        },
{
}

/// No trigger leads back into `Loading`, and a phase never follows itself.
pub proof fn lemma_no_self_loop(from: GameState, trigger: Trigger)
    ensures
        from.successor(trigger) != Some(from),
        from.successor(trigger) != Some(GameState::Loading),
{
}

} // verus!
