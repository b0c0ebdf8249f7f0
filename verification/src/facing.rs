//! The facing state machine: a direction that turns each time its timer
//! fires.

use crate::direction::{lemma_cycle_from_down, lemma_cycle_has_period_four, Direction};
use crate::timer::{Timer, TimerMode, TimerState};
use vstd::prelude::*;

verus! {

/// The state of a facing component, over the natural numbers.
pub struct FacingState {
    pub direction: Direction,
    pub timer: TimerState,
}

impl FacingState {
    /// A facing component that has not been advanced yet.
    pub open spec fn fresh(direction: Direction, period: nat) -> FacingState {
        FacingState { direction, timer: TimerState::fresh(period, TimerMode::Repeating) }
    }

    /// The timer is well formed.
    pub open spec fn wf(self) -> bool {
        self.timer.wf()
    }

    /// The state after a frame of length `delta`: the timer is ticked, and
    /// if it fired the direction takes one turn of the facing cycle.
    pub open spec fn advance(self, delta: nat) -> FacingState {
        FacingState {
            direction: if self.timer.crosses(delta) {
                self.direction.spec_next()
            } else {
                self.direction
            },
            timer: self.timer.tick(delta),
        }
    }

    /// The state after one frame for each element of `deltas`, in order.
    pub open spec fn run(self, deltas: Seq<nat>) -> FacingState
        decreases deltas.len(),
    {
        if deltas.len() == 0 {
            self
        } else {
            self.run(deltas.drop_last()).advance(deltas.last())
        }
    }
}

/// The direction an entity faces, with the timer that turns it.
#[derive(Clone, Copy, Debug, PartialEq, Eq)]
pub struct Facing {
    direction: Direction,
    timer: Timer,
}

impl View for Facing {
    type V = FacingState;

    closed spec fn view(&self) -> FacingState {
        FacingState { direction: self.direction, timer: self.timer@ }
    }
}

impl Facing {
    /// The invariant of a facing component: its state is well formed.
    pub open spec fn wf(&self) -> bool {
        self@.wf()
    }

    /// Creates a facing component that turns once every `period`, starting
    /// from `direction`. A period of zero is no period: there is no such
    /// component.
    pub fn new(direction: Direction, period: u64) -> (facing: Option<Facing>)
        ensures
            facing is Some <==> period > 0,
            facing matches Some(f) ==> f.wf() && f@ == FacingState::fresh(direction, period as nat),
    {
        match Timer::new(period, TimerMode::Repeating) {
            Some(timer) => Some(Facing { direction, timer }),
            None => None,
        }
    }

    /// Advances the component by a frame of length `delta` and returns
    /// whether the direction turned.
    pub fn advance(&mut self, delta: u64) -> (turned: bool)
        requires
            old(self).wf(),
        ensures
            final(self).wf(),
            final(self)@ == old(self)@.advance(delta as nat),
            turned == old(self)@.timer.crosses(delta as nat),
    {
        let turned = self.timer.tick(delta);
        if turned {
            self.direction = self.direction.next();
        }
        turned
    }

    /// The direction the entity faces now.
    pub fn direction(&self) -> (d: Direction)
        ensures
            d == self@.direction,
    {
        self.direction
    }

    /// The timer that turns the direction.
    pub fn timer(&self) -> (t: &Timer)
        ensures
            t@ == self@.timer,
    {
        &self.timer
    }
}

/// Over any run of frames the direction takes one turn for each fire of
/// the timer, and no other: it is where the cycle leads after as many
/// turns as the timer has fired.
pub proof fn lemma_one_turn_for_each_fire(f: FacingState, deltas: Seq<nat>)
    ensures
        f.run(deltas).timer == f.timer.run(deltas),
        f.run(deltas).direction == f.direction.after_turns(f.timer.fires(deltas)),
    decreases deltas.len(),
{
    if deltas.len() > 0 {
        lemma_one_turn_for_each_fire(f, deltas.drop_last());
    }
}

/// Four fires of the timer bring the direction back to where it started,
/// however many frames pass between them. From `Down` the first fire
/// leads to `Left`, the second to `Up`, the third to `Right` and the
/// fourth back to `Down`.
pub proof fn lemma_four_fires_return(f: FacingState, deltas: Seq<nat>)
    ensures
        f.timer.fires(deltas) == 4 ==> f.run(deltas).direction == f.direction,
        f.direction == Direction::Down ==> {
            &&& f.timer.fires(deltas) == 1 ==> f.run(deltas).direction == Direction::Left
            &&& f.timer.fires(deltas) == 2 ==> f.run(deltas).direction == Direction::Up
            &&& f.timer.fires(deltas) == 3 ==> f.run(deltas).direction == Direction::Right
            &&& f.timer.fires(deltas) == 4 ==> f.run(deltas).direction == Direction::Down
        },
{
    lemma_one_turn_for_each_fire(f, deltas);
    lemma_cycle_has_period_four(f.direction);
    lemma_cycle_from_down();
}

} // verus!
