//! Wind vane: eight contacts, one compass direction.

use vstd::prelude::*;

verus! {

/// A compass direction of the wind vane, or `Unknown` while no contact
/// has been seen closed yet.
#[derive(Clone, Copy, Debug, PartialEq, Eq, Structural)]
pub enum WindDirection {
    North,
    NorthEast,
    East,
    SouthEast,
    South,
    SouthWest,
    West,
    NorthWest,
    Unknown,
}

impl WindDirection {
    /// Place of the direction in the order in which contacts are tested;
    /// `Unknown` comes after all of them.
    pub open spec fn rank(self) -> int {
        match self {
            WindDirection::North => 0,
            WindDirection::NorthEast => 1,
            WindDirection::East => 2,
            WindDirection::SouthEast => 3,
            WindDirection::South => 4,
            WindDirection::SouthWest => 5,
            WindDirection::West => 6,
            WindDirection::NorthWest => 7,
            WindDirection::Unknown => 8,
        }
    }

    /// The direction whose contact is tested at place `rank`.
    pub open spec fn at(rank: int) -> WindDirection {
        if rank == 0 {
            WindDirection::North
        } else if rank == 1 {
            WindDirection::NorthEast
        } else if rank == 2 {
            WindDirection::East
        } else if rank == 3 {
            WindDirection::SouthEast
        } else if rank == 4 {
            WindDirection::South
        } else if rank == 5 {
            WindDirection::SouthWest
        } else if rank == 6 {
            WindDirection::West
        } else if rank == 7 {
            WindDirection::NorthWest
        } else {
            WindDirection::Unknown
        }
    }

    /// The direction at place `rank` of the testing order.
    pub fn from_rank(rank: usize) -> (direction: WindDirection)
        ensures
            direction == WindDirection::at(rank as int),
            rank < 8 ==> direction.rank() == rank,
            rank >= 8 ==> direction == WindDirection::Unknown,
    {
        if rank == 0 {
            WindDirection::North
        } else if rank == 1 {
            WindDirection::NorthEast
        } else if rank == 2 {
            WindDirection::East
        } else if rank == 3 {
            WindDirection::SouthEast
        } else if rank == 4 {
            WindDirection::South
        } else if rank == 5 {
            WindDirection::SouthWest
        } else if rank == 6 {
            WindDirection::West
        } else if rank == 7 {
            WindDirection::NorthWest
        } else {
            WindDirection::Unknown
        }
    }
}

/// Whether the first `n` contacts are all asserted (open).
pub open spec fn all_asserted(readings: Seq<bool>, n: int) -> bool {
    forall|j: int| 0 <= j < n ==> #[trigger] readings[j]
}

/// What eight contact readings mean: the first contact, in the order
/// N, NE, E, SE, S, SW, W, NW, that is de-asserted (closed) names the
/// direction; `None` if every contact is asserted.
pub open spec fn decoded(readings: Seq<bool>) -> Option<WindDirection> {
    if !readings[0] {
        Some(WindDirection::North)
    } else if !readings[1] {
        Some(WindDirection::NorthEast)
    } else if !readings[2] {
        Some(WindDirection::East)
    } else if !readings[3] {
        Some(WindDirection::SouthEast)
    } else if !readings[4] {
        Some(WindDirection::South)
    } else if !readings[5] {
        Some(WindDirection::SouthWest)
    } else if !readings[6] {
        Some(WindDirection::West)
    } else if !readings[7] {
        Some(WindDirection::NorthWest)
    } else {
        None
    }
}

/// What is stored after a decoding: a concrete direction replaces the
/// stored one, `None` leaves it as it was.
pub open spec fn retained(stored: WindDirection, reading: Option<WindDirection>) -> WindDirection {
    match reading {
        Some(direction) => direction,
        None => stored,
    }
}

/// Decodes eight contact readings, each `true` where the line is asserted.
///
/// Contacts are tested in the order N, NE, E, SE, S, SW, W, NW and the
/// first de-asserted one wins, whatever the others read.
pub fn decode(readings: [bool; 8]) -> (result: Option<WindDirection>)
    ensures
        result == decoded(readings@),
        result is None <==> all_asserted(readings@, 8),
        result matches Some(direction) ==> {
            &&& 0 <= direction.rank() < 8
            &&& !readings@[direction.rank()]
            &&& all_asserted(readings@, direction.rank())
        },
{
    let mut i: usize = 0;
    while i < 8
        invariant
            0 <= i <= 8,
            all_asserted(readings@, i as int),
        decreases 8 - i,
    {
        if !readings[i] {
            return Some(WindDirection::from_rank(i));
        }
        i += 1;
    }
    None
}

/// Applies a decoding to the stored direction: only a concrete direction
/// overwrites it.
pub fn retain(stored: WindDirection, reading: Option<WindDirection>) -> (result: WindDirection)
    ensures
        result == retained(stored, reading),
        reading is None ==> result == stored,
{
    match reading {
        Some(direction) => direction,
        None => stored,
    }
}

/// One reading of the vane: decodes the eight contacts and returns the
/// direction to store from now on.
pub fn observe(stored: WindDirection, readings: [bool; 8]) -> (result: WindDirection)
    ensures
        result == retained(stored, decoded(readings@)),
        all_asserted(readings@, 8) ==> result == stored,
{
    retain(stored, decode(readings))
}

/// Decoding depends on the readings alone: equal readings decode alike.
pub proof fn decode_is_a_function(a: [bool; 8], b: [bool; 8])
    requires
        a@ =~= b@,
    ensures
        decoded(a@) == decoded(b@),
{
}

/// Priority: where several contacts are de-asserted at once, the one
/// tested first is decoded, so no de-asserted contact comes before the
/// decoded one.
pub proof fn decode_respects_priority(readings: [bool; 8], i: int)
    requires
        0 <= i < 8,
        !readings@[i],
    ensures
        decoded(readings@) is Some,
        decoded(readings@).unwrap().rank() <= i,
        !readings@[decoded(readings@).unwrap().rank()],
        forall|j: int| 0 <= j < decoded(readings@).unwrap().rank() ==> readings@[j],
{
}

/// A decoding never names `Unknown`.
pub proof fn decode_is_concrete(readings: [bool; 8])
    ensures
        decoded(readings@) != Some(WindDirection::Unknown),
{
}

} // verus!
