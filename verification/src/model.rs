//! The contract as a mathematical object: its state, and what each
//! operation makes of a state.
//!
//! The executable contract is specified against these functions, and the
//! laws of the life cycle are proved about them.

use crate::error::ContractError;
use crate::escrow::{Transfer, LOYALTY_REWARD};
use crate::reservation::{Configuration, Reservation};
use crate::status::ReservationStatus;
use soroban_sdk::Address;
use vstd::prelude::*;

verus! {

/// Everything the contract stores. A reservation's identifier is its
/// position in `records`, so the next identifier to give out is the number
/// of records.
pub struct State {
    pub config: Option<Configuration>,
    pub records: Seq<Reservation>,
}

impl State {
    /// The state before anything has happened.
    pub open spec fn empty() -> State {
        State { config: None, records: Seq::empty() }
    }

    /// Every record is one that can be stored, and the identifier counter
    /// fits its type.
    pub open spec fn wf(self) -> bool {
        &&& self.records.len() <= u64::MAX
        &&& forall|i: int| 0 <= i < self.records.len() ==> (#[trigger] self.records[i]).wf()
    }

    /// A reservation with this identifier exists.
    pub open spec fn has(self, id: u64) -> bool {
        id < self.records.len()
    }

    /// The identifier that the next reservation gets.
    pub open spec fn next_id(self) -> nat {
        self.records.len()
    }

    /// The state with the reservation `id` replaced.
    pub open spec fn with_record(self, id: u64, record: Reservation) -> State {
        State { records: self.records.update(id as int, record), ..self }
    }

    /// Setting the configuration: allowed once.
    pub open spec fn initialize(
        self,
        owner: Address,
        loyalty_token_id: Address,
    ) -> (State, Result<(), ContractError>) {
        if self.config is Some {
            (self, Err(ContractError::AlreadyInitialized))
        } else {
            (State { config: Some(Configuration { owner, loyalty_token_id }), ..self }, Ok(()))
        }
    }

    /// Whether a reservation may be created: the business must have
    /// approved, and the amount must not be negative.
    pub open spec fn create_check(
        self,
        approved: Set<Address>,
        business_id: Address,
        payment_amount: i128,
    ) -> Result<(), ContractError> {
        if !approved.contains(business_id) {
            Err(ContractError::Unauthorized)
        } else if payment_amount < 0 {
            Err(ContractError::InvalidInput)
        } else {
            Ok(())
        }
    }

    /// Creating a reservation: the new record is appended as `Pending` and
    /// its position is returned.
    pub open spec fn create(
        self,
        approved: Set<Address>,
        business_id: Address,
        reservation_time: u64,
        party_size: u32,
        payment_amount: i128,
        payment_asset: Address,
    ) -> (State, Result<u64, ContractError>) {
        match self.create_check(approved, business_id, payment_amount) {
            Err(e) => (self, Err(e)),
            Ok(()) => (
                State {
                    records: self.records.push(
                        Reservation::pending(
                            business_id,
                            reservation_time,
                            party_size,
                            payment_amount,
                            payment_asset,
                        ),
                    ),
                    ..self
                },
                Ok(self.records.len() as u64),
            ),
        }
    }

    /// Whether `customer_id` may confirm the reservation `id`, and if so the
    /// payment that the confirmation rests on.
    pub open spec fn confirm_check(
        self,
        approved: Set<Address>,
        id: u64,
        customer_id: Address,
    ) -> Result<Transfer, ContractError> {
        if !approved.contains(customer_id) {
            Err(ContractError::Unauthorized)
        } else if !self.has(id) {
            Err(ContractError::NotFound)
        } else {
            let record = self.records[id as int];
            if record.status != ReservationStatus::Pending {
                Err(ContractError::InvalidState)
            } else if record.customer_id is Some && record.customer_id != Some(customer_id) {
                Err(ContractError::Unauthorized)
            } else {
                Ok(
                    Transfer {
                        asset: record.payment_asset,
                        from: customer_id,
                        to: record.business_id,
                        amount: record.payment_amount,
                    },
                )
            }
        }
    }

    /// Confirming a reservation. `paid` says whether the asset moved the
    /// payment; it is consulted only when the confirmation is allowed.
    pub open spec fn confirm(
        self,
        approved: Set<Address>,
        id: u64,
        customer_id: Address,
        paid: bool,
    ) -> (State, Result<(), ContractError>) {
        match self.confirm_check(approved, id, customer_id) {
            Err(e) => (self, Err(e)),
            Ok(_) => if paid {
                (
                    self.with_record(id, self.records[id as int].confirmed_by(customer_id)),
                    Ok(()),
                )
            } else {
                (self, Err(ContractError::TransferError))
            },
        }
    }

    /// Whether the reservation `id` may be resolved to `new_status`, and if
    /// so the reward that has to be paid first, if any.
    pub open spec fn update_check(
        self,
        approved: Set<Address>,
        id: u64,
        new_status: ReservationStatus,
    ) -> Result<Option<Transfer>, ContractError> {
        if !self.has(id) {
            Err(ContractError::NotFound)
        } else if !new_status.is_outcome() {
            Err(ContractError::InvalidTransition)
        } else {
            let record = self.records[id as int];
            if record.status != ReservationStatus::Confirmed {
                Err(ContractError::InvalidState)
            } else if !approved.contains(record.business_id) {
                Err(ContractError::Unauthorized)
            } else if new_status == ReservationStatus::Completed && !record.loyalty_issued {
                self.reward_check(approved, record)
            } else {
                Ok(None)
            }
        }
    }

    /// The reward for a completed visit: the owner must have approved it,
    /// and it goes from the owner to the customer.
    pub open spec fn reward_check(
        self,
        approved: Set<Address>,
        record: Reservation,
    ) -> Result<Option<Transfer>, ContractError> {
        match (self.config, record.customer_id) {
            (None, _) => Err(ContractError::NotInitialized),
            (Some(config), customer) => if !approved.contains(config.owner) {
                Err(ContractError::Unauthorized)
            } else {
                match customer {
                    None => Err(ContractError::InvalidState),
                    Some(customer_id) => Ok(
                        Some(
                            Transfer {
                                asset: config.loyalty_token_id,
                                from: config.owner,
                                to: customer_id,
                                amount: LOYALTY_REWARD,
                            },
                        ),
                    ),
                }
            },
        }
    }

    /// Resolving a reservation. `paid` says whether the asset moved the
    /// reward; it is consulted only when a reward is due.
    pub open spec fn update(
        self,
        approved: Set<Address>,
        id: u64,
        new_status: ReservationStatus,
        paid: bool,
    ) -> (State, Result<(), ContractError>) {
        match self.update_check(approved, id, new_status) {
            Err(e) => (self, Err(e)),
            Ok(due) => if due is Some && !paid {
                (self, Err(ContractError::TransferError))
            } else {
                (self.with_record(id, self.records[id as int].resolved_as(new_status)), Ok(()))
            },
        }
    }

    /// The principals whose approval decides whether the reservation `id`
    /// can be resolved to `new_status`: the business, and the owner where a
    /// reward is due. Empty where the request fails whoever approves.
    pub open spec fn update_signers(self, id: u64, new_status: ReservationStatus) -> Seq<Address> {
        if !self.has(id) || !new_status.is_outcome() {
            Seq::empty()
        } else {
            let record = self.records[id as int];
            if record.status != ReservationStatus::Confirmed {
                Seq::empty()
            } else if new_status == ReservationStatus::Completed && !record.loyalty_issued
                && self.config is Some {
                seq![record.business_id, self.config->0.owner]
            } else {
                seq![record.business_id]
            }
        }
    }

    /// Whether `business_id` may have loyalty tokens made, and if so the
    /// transfer that makes them: only the owner may, and the tokens move
    /// from the owner's balance to the owner's balance.
    pub open spec fn loyalty_check(
        self,
        business_id: Address,
        amount: i128,
    ) -> Result<Transfer, ContractError> {
        match self.config {
            None => Err(ContractError::NotInitialized),
            Some(config) => if business_id != config.owner {
                Err(ContractError::Unauthorized)
            } else {
                Ok(
                    Transfer {
                        asset: config.loyalty_token_id,
                        from: business_id,
                        to: business_id,
                        amount,
                    },
                )
            },
        }
    }

    /// The reservation `id`, if there is one.
    pub open spec fn lookup(self, id: u64) -> Option<Reservation> {
        if self.has(id) {
            Some(self.records[id as int])
        } else {
            None
        }
    }
}

} // verus!
