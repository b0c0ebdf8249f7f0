//! The animation driver: a frame index into a sprite sheet that advances
//! each time its timer fires.
//!
//! A sprite sheet has one row per direction, in rank order, and
//! `frame_count` frames in each row. The frame index numbers the frames row
//! by row, so it tells both the phase of the animation and the direction
//! that the entity faced when the frame was chosen.

use crate::direction::{Direction, DIRECTION_COUNT};
use crate::timer::{Timer, TimerMode, TimerState};
use vstd::prelude::*;

verus! {

/// The frame that follows `index` for an entity that faces the direction
/// of rank `rank`: the phase moves on by one, cyclically within
/// `frame_count`, and the row is that of the direction.
pub open spec fn next_frame_index(index: nat, frame_count: nat, rank: nat) -> nat {
    (index + 1) % frame_count + frame_count * rank
}

/// The state of an animation component, over the natural numbers.
pub struct AnimationState {
    pub timer: TimerState,
    /// Frames in each row of the sprite sheet; positive in a well-formed
    /// state.
    pub frame_count: nat,
    pub frame_index: nat,
}

impl AnimationState {
    /// An animation that has not been advanced yet: it shows the first
    /// frame of the first row.
    pub open spec fn fresh(period: nat, frame_count: nat) -> AnimationState {
        AnimationState {
            timer: TimerState::fresh(period, TimerMode::Repeating),
            frame_count,
            frame_index: 0,
        }
    }

    /// The timer is well formed, a row has frames, and the frame index
    /// lies on the sheet.
    pub open spec fn wf(self) -> bool {
        &&& self.timer.wf()
        &&& self.frame_count > 0
        &&& self.frame_index < DIRECTION_COUNT * self.frame_count
    }

    /// The phase of the animation: the place of the frame within its row.
    pub open spec fn phase(self) -> nat {
        self.frame_index % self.frame_count
    }

    /// The row of the frame on the sheet.
    pub open spec fn row(self) -> nat {
        self.frame_index / self.frame_count
    }

    /// The state after a frame of length `delta` for an entity that faces
    /// `facing`: the timer is ticked, and if it fired the next frame is
    /// chosen.
    pub open spec fn advance(self, delta: nat, facing: Direction) -> AnimationState {
        AnimationState {
            timer: self.timer.tick(delta),
            frame_count: self.frame_count,
            frame_index: if self.timer.crosses(delta) {
                next_frame_index(self.frame_index, self.frame_count, facing.spec_rank())
            } else {
                self.frame_index
            },
        }
    }
}

/// The sprite animation of an entity, with the timer that drives it.
#[derive(Clone, Copy, Debug, PartialEq, Eq)]
pub struct Animation {
    timer: Timer,
    frame_count: u32,
    frame_index: u64,
}

impl View for Animation {
    type V = AnimationState;

    closed spec fn view(&self) -> AnimationState {
        AnimationState {
            timer: self.timer@,
            frame_count: self.frame_count as nat,
            frame_index: self.frame_index as nat,
        }
    }
}

impl Animation {
    /// The invariant of an animation component: its state is well formed.
    pub open spec fn wf(&self) -> bool {
        self@.wf()
    }

    /// Creates an animation that moves on by one frame every `period`, on
    /// a sheet with `frame_count` frames in a row. Without a period or
    /// without frames there is no such component.
    pub fn new(period: u64, frame_count: u32) -> (animation: Option<Animation>)
        ensures
            animation is Some <==> period > 0 && frame_count > 0,
            animation matches Some(a) ==> a.wf() && a@ == AnimationState::fresh(
                period as nat,
                frame_count as nat,
            ),
    {
        if frame_count == 0 {
            return None;
        }
        match Timer::new(period, TimerMode::Repeating) {
            Some(timer) => Some(Animation { timer, frame_count, frame_index: 0 }),
            None => None,
        }
    }

    /// Advances the animation by a frame of length `delta` for an entity
    /// that faces `facing`, and returns whether a new frame was chosen.
    pub fn advance(&mut self, delta: u64, facing: Direction) -> (fired: bool)
        requires
            old(self).wf(),
        ensures
            final(self).wf(),
            final(self)@ == old(self)@.advance(delta as nat, facing),
            fired == old(self)@.timer.crosses(delta as nat),
            fired ==> final(self)@.row() == facing.spec_rank(),
            fired ==> final(self)@.phase() == (old(self)@.phase() + 1) % final(self)@.frame_count,
    {
        let fired = self.timer.tick(delta);
        if fired {
            let count = self.frame_count as u64;
            let rank = facing.rank() as u64;
            proof {
                lemma_next_frame_index(
                    self.frame_index as nat,
                    self.frame_count as nat,
                    facing.spec_rank(),
                );
            }
            self.frame_index = (self.frame_index + 1) % count + count * rank;
        }
        fired
    }

    /// The index of the frame to draw.
    pub fn frame_index(&self) -> (index: u64)
        ensures
            index == self@.frame_index,
    {
        self.frame_index
    }

    /// The number of frames in each row of the sprite sheet.
    pub fn frame_count(&self) -> (count: u32)
        ensures
            count == self@.frame_count,
    {
        self.frame_count
    }

    /// The timer that drives the animation.
    pub fn timer(&self) -> (t: &Timer)
        ensures
            t@ == self@.timer,
    {
        &self.timer
    }
}

/// The next frame lies in the row of the direction, and its phase is the
/// phase of the frame before, moved on by one and taken modulo the number
/// of frames in a row. So the phase runs through `0, 1, ..., frame_count - 1`
/// again and again, whatever the row.
pub proof fn lemma_next_frame_index(index: nat, frame_count: nat, rank: nat)
    requires
        frame_count > 0,
    ensures
        next_frame_index(index, frame_count, rank) / frame_count == rank,
        next_frame_index(index, frame_count, rank) % frame_count == (index % frame_count + 1)
            % frame_count,
        next_frame_index(index, frame_count, rank) % frame_count == (if index % frame_count + 1
            == frame_count {
            0
        } else {
            index % frame_count + 1
        }),
        next_frame_index(index, frame_count, rank) < frame_count * (rank + 1),
{
    let f = frame_count as int;
    let phase = (index + 1) as int % f;
    let next = next_frame_index(index, frame_count, rank) as int;
    assert(next == rank * f + phase) by (nonlinear_arith)
        requires
            next == phase + frame_count * rank,
            f == frame_count,
    ;
    vstd::arithmetic::div_mod::lemma_fundamental_div_mod_converse(next, f, rank as int, phase);
    vstd::arithmetic::div_mod::lemma_add_mod_noop_right(1, index as int, f);
    assert(frame_count * (rank + 1) == frame_count * rank + frame_count) by (nonlinear_arith);
    let p = index as int % f;
    if p + 1 == f {
        vstd::arithmetic::div_mod::lemma_mod_self_0(f);
    } else {
        vstd::arithmetic::div_mod::lemma_small_mod((p + 1) as nat, frame_count);
    }
}

} // verus!
