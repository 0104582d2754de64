//! Cardinal headings of the Manhattan mobility model.

use vstd::prelude::*;
use rand::Rng;
use rand::rngs::StdRng;

verus! {

/// The standard seeded random number generator that drives a run.
#[verifier::external_type_specification]
#[verifier::external_body]
pub struct ExStdRng(StdRng);

/// `Rng::gen_range(0u8..4)` on a `StdRng`: a value drawn uniformly below 4.
/// The contract states only that the value is below 4.
#[verifier::external_body]
fn draw_below_four(rng: &mut StdRng) -> (k: u8)
    ensures
        k < 4,
{
    rng.gen_range(0u8..4)
}

/// `Rng::gen::<bool>()` on a `StdRng`: a fair coin. Either value may come back.
#[verifier::external_body]
fn draw_bool(rng: &mut StdRng) -> bool {
    rng.gen::<bool>()
}

/// Cardinal movement direction for the Manhattan mobility model.
#[derive(Debug, Clone, Copy, PartialEq, Eq, Structural)]
pub enum Direction {
    East,
    South,
    West,
    North,
}

/// The heading drawn for the number `k`: 0 East, 1 South, 2 West, anything else North.
pub open spec fn spec_direction_of(k: u8) -> Direction {
    if k == 0 {
        Direction::East
    } else if k == 1 {
        Direction::South
    } else if k == 2 {
        Direction::West
    } else {
        Direction::North
    }
}

/// Whether `a` and `b` are at right angles.
pub open spec fn perpendicular(a: Direction, b: Direction) -> bool {
    match a {
        Direction::East | Direction::West => b == Direction::North || b == Direction::South,
        Direction::North | Direction::South => b == Direction::East || b == Direction::West,
    }
}

/// The heading after a 90° turn from `d`: the first option (North from an east-west
/// heading, East from a north-south one) or the second (South, West).
pub open spec fn spec_turned(d: Direction, first: bool) -> Direction {
    match d {
        Direction::East | Direction::West => if first { Direction::North } else { Direction::South },
        Direction::North | Direction::South => if first { Direction::East } else { Direction::West },
    }
}

impl Direction {
    /// The heading for the number `k` drawn below 4.
    pub fn from_index(k: u8) -> (d: Direction)
        ensures
            d == spec_direction_of(k),
    {
        if k == 0 {
            Direction::East
        } else if k == 1 {
            Direction::South
        } else if k == 2 {
            Direction::West
        } else {
            Direction::North
        }
    }

    /// Turns 90°, to the first or the second perpendicular option.
    pub fn turned(self, first: bool) -> (d: Direction)
        ensures
            d == spec_turned(self, first),
    {
        match self {
            Direction::East | Direction::West => if first { Direction::North } else { Direction::South },
            Direction::North | Direction::South => if first { Direction::East } else { Direction::West },
        }
    }

    /// Choose a random direction.
    pub fn random(rng: &mut StdRng) -> (d: Direction)
        ensures
            exists|k: u8| k < 4 && d == spec_direction_of(k),
    {
        let k = draw_below_four(rng);
        Direction::from_index(k)
    }

    /// Turn 90° left or right at random.
    pub fn turn_random(self, rng: &mut StdRng) -> (d: Direction)
        ensures
            perpendicular(self, d),
    {
        let first = draw_bool(rng);
        self.turned(first)
    }
}

/// Every turn is a right angle: both options are perpendicular to the heading, and
/// they differ from each other.
pub proof fn turns_are_right_angles(d: Direction)
    ensures
        perpendicular(d, spec_turned(d, true)),
        perpendicular(d, spec_turned(d, false)),
        spec_turned(d, true) != spec_turned(d, false),
{
}

/// Different draws give different headings: the four numbers below 4 name the four
/// headings, 0 East, 1 South, 2 West and 3 North, so drawn numbers spread over all
/// of them.
pub proof fn draws_name_distinct_headings(k1: u8, k2: u8)
    requires
        k1 < 4,
        k2 < 4,
    ensures
        k1 != k2 ==> spec_direction_of(k1) != spec_direction_of(k2),
        k1 == 0 ==> spec_direction_of(k1) == Direction::East,
        k1 == 1 ==> spec_direction_of(k1) == Direction::South,
        k1 == 2 ==> spec_direction_of(k1) == Direction::West,
        k1 == 3 ==> spec_direction_of(k1) == Direction::North,
{
}

/// Every heading can be drawn.
pub proof fn every_heading_can_be_drawn(d: Direction)
    ensures
        exists|k: u8| k < 4 && spec_direction_of(k) == d,
{
    match d {
        Direction::East => assert(spec_direction_of(0) == d),
        Direction::South => assert(spec_direction_of(1) == d),
        Direction::West => assert(spec_direction_of(2) == d),
        Direction::North => assert(spec_direction_of(3) == d),
    }
}

} // verus!
