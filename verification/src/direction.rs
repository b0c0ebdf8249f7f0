//! The four cardinal facing directions and their fixed transition cycle.

use vstd::prelude::*;

verus! {

/// A cardinal facing direction.
///
/// The declaration order is the rank order: `Down`, `Left`, `Right`, `Up`
/// have ranks 0, 1, 2 and 3. The rank selects the row of a sprite sheet.
#[derive(Clone, Copy, Debug, PartialEq, Eq, Structural)]
pub enum Direction {
    Down,
    Left,
    Right,
    Up,
}

/// Number of facing directions, and so of rows in a sprite sheet.
pub const DIRECTION_COUNT: u8 = 4;

impl Direction {
    /// The integer rank of a direction.
    pub open spec fn spec_rank(self) -> nat {
        match self {
            Direction::Down => 0,
            Direction::Left => 1,
            Direction::Right => 2,
            Direction::Up => 3,
        }
    }

    /// The direction that follows `self` in the facing cycle
    /// `Down -> Left -> Up -> Right -> Down`.
    pub open spec fn spec_next(self) -> Direction {
        match self {
            Direction::Down => Direction::Left,
            Direction::Left => Direction::Up,
            Direction::Up => Direction::Right,
            Direction::Right => Direction::Down,
        }
    }

    /// The direction reached from `self` after `turns` steps of the cycle.
    pub open spec fn after_turns(self, turns: nat) -> Direction
        decreases turns,
    {
        if turns == 0 {
            self
        } else {
            self.after_turns((turns - 1) as nat).spec_next()
        }
    }

    /// The direction with the given rank, if there is one.
    pub open spec fn spec_from_rank(rank: nat) -> Option<Direction> {
        if rank == 0 {
            Some(Direction::Down)
        } else if rank == 1 {
            Some(Direction::Left)
        } else if rank == 2 {
            Some(Direction::Right)
        } else if rank == 3 {
            Some(Direction::Up)
        } else {
            None
        }
    }

    /// Returns the rank of the direction.
    pub fn rank(self) -> (r: u8)
        ensures
            r == self.spec_rank(),
            r < DIRECTION_COUNT,
    {
        match self {
            Direction::Down => 0,
            Direction::Left => 1,
            Direction::Right => 2,
            Direction::Up => 3,
        }
    }

    /// Returns the direction with the given rank, or `None` when the rank
    /// is not below `DIRECTION_COUNT`.
    pub fn from_rank(rank: u8) -> (d: Option<Direction>)
        ensures
            d == Direction::spec_from_rank(rank as nat),
            d is Some <==> rank < DIRECTION_COUNT,
            d matches Some(dir) ==> dir.spec_rank() == rank,
    {
        if rank == 0 {
            Some(Direction::Down)
        } else if rank == 1 {
            Some(Direction::Left)
        } else if rank == 2 {
            Some(Direction::Right)
        } else if rank == 3 {
            Some(Direction::Up)
        } else {
            None
        }
    }

    /// Returns the next direction of the facing cycle.
    #[verifier::when_used_as_spec(spec_next)]
    pub fn next(self) -> (d: Direction)
        ensures
            d == self.spec_next(),
    {
        match self {
            Direction::Down => Direction::Left,
            Direction::Left => Direction::Up,
            Direction::Up => Direction::Right,
            Direction::Right => Direction::Down,
        }
    }
}

/// Four turns bring every direction back to itself, and the three
/// directions met on the way are all different from it and from one
/// another: the cycle visits every direction exactly once.
pub proof fn lemma_cycle_has_period_four(d: Direction)
    ensures
        d.after_turns(4) == d,
        d.after_turns(1) != d,
        d.after_turns(2) != d,
        d.after_turns(3) != d,
        d.after_turns(1) != d.after_turns(2),
        d.after_turns(1) != d.after_turns(3),
        d.after_turns(2) != d.after_turns(3),
{
    reveal_with_fuel(Direction::after_turns, 5);
}

/// From `Down` the cycle visits `Left`, `Up` and `Right`, in that order,
/// before it returns to `Down`.
pub proof fn lemma_cycle_from_down()
    ensures
        Direction::Down.after_turns(1) == Direction::Left,
        Direction::Down.after_turns(2) == Direction::Up,
        Direction::Down.after_turns(3) == Direction::Right,
        Direction::Down.after_turns(4) == Direction::Down,
{
    reveal_with_fuel(Direction::after_turns, 5);
}

/// The cycle has the period four: what counts is the number of turns
/// modulo four.
pub proof fn lemma_turns_modulo_four(d: Direction, turns: nat)
    ensures
        d.after_turns(turns + 4) == d.after_turns(turns),
        d.after_turns(turns) == d.after_turns(turns % 4),
    decreases turns,
{
    reveal_with_fuel(Direction::after_turns, 5);
    lemma_cycle_has_period_four(d.after_turns(turns));
    if turns >= 4 {
        lemma_turns_modulo_four(d, (turns - 4) as nat);
    }
}

/// `spec_from_rank` inverts `spec_rank`.
pub proof fn lemma_rank_round_trip(d: Direction)
    ensures
        Direction::spec_from_rank(d.spec_rank()) == Some(d),
{
}

} // verus!
