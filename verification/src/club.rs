//! Clubs and the fixed rotation they are selected from.
//!
//! A club's launch attributes are its loft in whole degrees and its maximum
//! initial ball speed in micrometers per second. The rotation holds exactly
//! two clubs — driver and putter — and `next_club`/`previous_club` wrap
//! around it circularly.

use vstd::prelude::*;

verus! {

/// Number of clubs in the rotation.
pub const CLUB_COUNT: usize = 2;

/// Largest club speed, in micrometers per second (500 m/s).
pub const CLUB_SPEED_LIMIT: i64 = 500_000_000;

#[derive(Clone, Copy, Debug, PartialEq, Eq)]
pub struct Club {
    pub id: u32,
    pub name: &'static str,
    /// Launch angle above the ground, in whole degrees.
    pub loft_deg: u32,
    /// Ball speed at full power, in micrometers per second.
    pub max_initial_velocity: i64,
}

impl Club {
    pub open spec fn wf(self) -> bool {
        self.loft_deg <= 90 && 0 <= self.max_initial_velocity <= CLUB_SPEED_LIMIT
    }

    /// The driver: twelve degrees of loft, 73.76 m/s at full power.
    pub open spec fn driver_spec() -> Club {
        Club { id: 1, name: "Driver", loft_deg: 12, max_initial_velocity: 73_760_000 }
    }

    /// The putter: no loft, one meter per second at full power.
    pub open spec fn putter_spec() -> Club {
        Club { id: 2, name: "Putter", loft_deg: 0, max_initial_velocity: 1_000_000 }
    }

    pub fn driver() -> (r: Club)
        ensures
            r == Club::driver_spec(),
            r.wf(),
    {
        Club { id: 1, name: "Driver", loft_deg: 12, max_initial_velocity: 73_760_000 }
    }

    pub fn putter() -> (r: Club)
        ensures
            r == Club::putter_spec(),
            r.wf(),
    {
        Club { id: 2, name: "Putter", loft_deg: 0, max_initial_velocity: 1_000_000 }
    }

    /// The club a fresh shot starts from.
    pub fn default() -> (r: Club)
        ensures
            r == Club::driver_spec(),
            r.wf(),
    {
        Club::driver()
    }
}

/// The index after `selected`, wrapping past the end of the rotation.
pub open spec fn next_club_spec(selected: int) -> int {
    if selected + 1 < CLUB_COUNT { selected + 1 } else { 0 }
}

/// The index before `selected`, wrapping past the start of the rotation.
pub open spec fn previous_club_spec(selected: int) -> int {
    if selected == 0 { CLUB_COUNT - 1 } else { selected - 1 }
}

#[derive(Clone, Copy, Debug, PartialEq, Eq)]
pub struct ClubSet {
    pub clubs: (Club, Club),
}

impl ClubSet {
    pub open spec fn wf(self) -> bool {
        self.clubs.0.wf() && self.clubs.1.wf()
    }

    pub open spec fn at_spec(self, selection: int) -> Club {
        if selection == 0 { self.clubs.0 } else { self.clubs.1 }
    }

    pub open spec fn default_spec() -> ClubSet {
        ClubSet { clubs: (Club::driver_spec(), Club::putter_spec()) }
    }

    pub fn default() -> (r: ClubSet)
        ensures
            r == ClubSet::default_spec(),
            r.wf(),
    {
        ClubSet { clubs: (Club::driver(), Club::putter()) }
    }

    pub fn previous_club(&self, selected: usize) -> (r: usize)
        requires
            selected < CLUB_COUNT,
        ensures
            r == previous_club_spec(selected as int),
            r < CLUB_COUNT,
    {
        if selected == 0 {
            CLUB_COUNT - 1
        } else {
            selected - 1
        }
    }

    pub fn next_club(&self, selected: usize) -> (r: usize)
        requires
            selected < CLUB_COUNT,
        ensures
            r == next_club_spec(selected as int),
            r < CLUB_COUNT,
    {
        if selected + 1 < CLUB_COUNT {
            selected + 1
        } else {
            0
        }
    }

    pub fn at(&self, selection: &usize) -> (r: Club)
        requires
            *selection < CLUB_COUNT,
        ensures
            r == self.at_spec(*selection as int),
    {
        if *selection == 0 {
            self.clubs.0
        } else {
            self.clubs.1
        }
    }
}

/// Stepping back through the rotation and forward again returns to the
/// same selection, and so does the opposite round trip, for every valid
/// index.
pub proof fn lemma_club_rotation_roundtrip(i: int)
    requires
        0 <= i < CLUB_COUNT,
    ensures
        next_club_spec(previous_club_spec(i)) == i,
        previous_club_spec(next_club_spec(i)) == i,
{
}

} // verus!
