//! The life cycle of a reservation.
//!
//! ```text
//! Pending --confirm--> Confirmed --resolve--> Completed
//!                                \-resolve--> NoShow
//! ```
//!
//! `Cancelled` is kept so that stored records that carry it stay readable;
//! no operation enters or leaves it.

use vstd::prelude::*;

verus! {

/// Where a reservation stands in its life cycle.
#[derive(Clone, Copy, Debug, PartialEq, Eq, Structural)]
pub enum ReservationStatus {
    Pending,
    Confirmed,
    NoShow,
    Completed,
    Cancelled,
}

impl ReservationStatus {
    /// The edges of the life cycle: one operation may take a reservation
    /// from `self` to `next`.
    pub open spec fn may_become(self, next: ReservationStatus) -> bool {
        ||| self == ReservationStatus::Pending && next == ReservationStatus::Confirmed
        ||| self == ReservationStatus::Confirmed && next == ReservationStatus::Completed
        ||| self == ReservationStatus::Confirmed && next == ReservationStatus::NoShow
    }

    /// `later` is `self` or lies ahead of it: the edges, taken any number of
    /// times.
    pub open spec fn reaches(self, later: ReservationStatus) -> bool {
        ||| self == later
        ||| self.may_become(later)
        ||| self == ReservationStatus::Pending && later == ReservationStatus::Completed
        ||| self == ReservationStatus::Pending && later == ReservationStatus::NoShow
    }

    /// The two ways in which a confirmed reservation can be resolved.
    pub open spec fn is_outcome(self) -> bool {
        self == ReservationStatus::Completed || self == ReservationStatus::NoShow
    }

    /// No edge leaves this status.
    pub open spec fn is_final(self) -> bool {
        self != ReservationStatus::Pending && self != ReservationStatus::Confirmed
    }

    /// The status that `name` spells, if it spells one.
    pub open spec fn named(name: Seq<char>) -> Option<ReservationStatus> {
        if name == "Pending"@ {
            Some(ReservationStatus::Pending)
        } else if name == "Confirmed"@ {
            Some(ReservationStatus::Confirmed)
        } else if name == "NoShow"@ {
            Some(ReservationStatus::NoShow)
        } else if name == "Completed"@ {
            Some(ReservationStatus::Completed)
        } else if name == "Cancelled"@ {
            Some(ReservationStatus::Cancelled)
        } else {
            None
        }
    }

    /// Reads a status from its name. Anything but the five names is turned
    /// away here, before it can reach the transition rules.
    pub fn from_name(name: &str) -> (status: Option<ReservationStatus>)
        ensures
            status == Self::named(name@),
    {
        let given = name.to_owned();
        if given == "Pending".to_owned() {
            Some(ReservationStatus::Pending)
        } else if given == "Confirmed".to_owned() {
            Some(ReservationStatus::Confirmed)
        } else if given == "NoShow".to_owned() {
            Some(ReservationStatus::NoShow)
        } else if given == "Completed".to_owned() {
            Some(ReservationStatus::Completed)
        } else if given == "Cancelled".to_owned() {
            Some(ReservationStatus::Cancelled)
        } else {
            None
        }
    }

    /// The name of the status, as `from_name` reads it.
    pub fn name(&self) -> (name: &'static str)
        ensures
            Self::named(name@) == Some(*self),
    {
        proof {
            reveal_strlit("Pending");
            reveal_strlit("Confirmed");
            reveal_strlit("NoShow");
            reveal_strlit("Completed");
            reveal_strlit("Cancelled");
            assert("Pending"@.len() == 7 && "Confirmed"@.len() == 9 && "NoShow"@.len() == 6);
            assert("Completed"@[1] == 'o' && "Confirmed"@[1] == 'o' && "Cancelled"@[1] == 'a');
            assert("Completed"@[3] == 'p' && "Confirmed"@[3] == 'f');
        }
        match self {
            ReservationStatus::Pending => "Pending",
            ReservationStatus::Confirmed => "Confirmed",
            ReservationStatus::NoShow => "NoShow",
            ReservationStatus::Completed => "Completed",
            ReservationStatus::Cancelled => "Cancelled",
        }
    }
}

} // verus!
