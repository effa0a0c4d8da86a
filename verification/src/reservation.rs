//! A reservation and the contract's configuration, as they are stored.

use crate::principal::{copy_address, copy_optional};
use crate::status::ReservationStatus;
use soroban_sdk::Address;
use vstd::prelude::*;

verus! {

/// One reservation.
///
/// The business, the time, the party size, the amount and the asset are set
/// when the reservation is created and never change. The customer is set
/// when the reservation is confirmed.
#[derive(Debug, PartialEq, Eq)]
pub struct Reservation {
    pub business_id: Address,
    pub customer_id: Option<Address>,
    pub reservation_time: u64,
    pub party_size: u32,
    pub payment_amount: i128,
    pub payment_asset: Address,
    pub status: ReservationStatus,
    pub loyalty_issued: bool,
}

impl Reservation {
    /// What holds of every stored reservation: it has a customer exactly
    /// when it is past `Pending`, a reward has been issued only for a
    /// completed visit, and the amount is not negative.
    pub open spec fn wf(&self) -> bool {
        &&& self.customer_id is None <==> self.status == ReservationStatus::Pending
        &&& self.loyalty_issued ==> self.status == ReservationStatus::Completed
        &&& self.payment_amount >= 0
    }

    /// The reservation as it is created.
    pub open spec fn pending(
        business_id: Address,
        reservation_time: u64,
        party_size: u32,
        payment_amount: i128,
        payment_asset: Address,
    ) -> Reservation {
        Reservation {
            business_id,
            customer_id: None,
            reservation_time,
            party_size,
            payment_amount,
            payment_asset,
            status: ReservationStatus::Pending,
            loyalty_issued: false,
        }
    }

    /// The reservation after `customer_id` has confirmed it. A customer that
    /// was assigned before stays.
    pub open spec fn confirmed_by(self, customer_id: Address) -> Reservation {
        Reservation {
            customer_id: if self.customer_id is None {
                Some(customer_id)
            } else {
                self.customer_id
            },
            status: ReservationStatus::Confirmed,
            ..self
        }
    }

    /// The reservation after it has been resolved to `outcome`. Resolving it
    /// as completed marks the reward as issued.
    pub open spec fn resolved_as(self, outcome: ReservationStatus) -> Reservation {
        Reservation {
            status: outcome,
            loyalty_issued: self.loyalty_issued || outcome == ReservationStatus::Completed,
            ..self
        }
    }

    /// What no operation changes once the reservation exists.
    pub open spec fn same_booking(self, other: Reservation) -> bool {
        &&& self.business_id == other.business_id
        &&& self.reservation_time == other.reservation_time
        &&& self.party_size == other.party_size
        &&& self.payment_amount == other.payment_amount
        &&& self.payment_asset == other.payment_asset
    }

    /// Tests whether the record is one that can be stored.
    pub fn is_valid(&self) -> (valid: bool)
        ensures
            valid == self.wf(),
    {
        let pending = match self.status {
            ReservationStatus::Pending => true,
            _ => false,
        };
        let completed = match self.status {
            ReservationStatus::Completed => true,
            _ => false,
        };
        self.customer_id.is_none() == pending && (!self.loyalty_issued || completed)
            && self.payment_amount >= 0
    }
}

impl Clone for Reservation {
    fn clone(&self) -> (copy: Reservation)
        ensures
            copy == *self,
    {
        Reservation {
            business_id: copy_address(&self.business_id),
            customer_id: copy_optional(&self.customer_id),
            reservation_time: self.reservation_time,
            party_size: self.party_size,
            payment_amount: self.payment_amount,
            payment_asset: copy_address(&self.payment_asset),
            status: self.status,
            loyalty_issued: self.loyalty_issued,
        }
    }
}

/// The contract's configuration: who approves rewards, and the token they
/// are paid in. It is set once and never changes.
#[derive(Debug, PartialEq, Eq)]
pub struct Configuration {
    pub owner: Address,
    pub loyalty_token_id: Address,
}

impl Clone for Configuration {
    fn clone(&self) -> (copy: Configuration)
        ensures
            copy == *self,
    {
        Configuration {
            owner: copy_address(&self.owner),
            loyalty_token_id: copy_address(&self.loyalty_token_id),
        }
    }
}

} // verus!
