//! Histories: what any sequence of calls makes of a state.
//!
//! A call is written down together with the answer that the asset gave
//! where it was asked, so a history is a plain value and the laws can speak
//! of every history at once.

use crate::model::State;
use crate::status::ReservationStatus;
use soroban_sdk::Address;
use vstd::prelude::*;

verus! {

/// One call of a state-changing operation. `approved` holds the principals
/// that had authorised the call; `paid` says whether the asset moved the
/// value, and means nothing where the call asked for no transfer.
pub enum Call {
    Initialize { owner: Address, loyalty_token_id: Address },
    Create {
        approved: Set<Address>,
        business_id: Address,
        reservation_time: u64,
        party_size: u32,
        payment_amount: i128,
        payment_asset: Address,
    },
    Confirm { approved: Set<Address>, reservation_id: u64, customer_id: Address, paid: bool },
    Update {
        approved: Set<Address>,
        reservation_id: u64,
        new_status: ReservationStatus,
        paid: bool,
    },
}

impl State {
    /// The state after one call.
    pub open spec fn step(self, call: Call) -> State {
        match call {
            Call::Initialize { owner, loyalty_token_id } => self.initialize(
                owner,
                loyalty_token_id,
            ).0,
            Call::Create {
                approved,
                business_id,
                reservation_time,
                party_size,
                payment_amount,
                payment_asset,
            } => self.create(
                approved,
                business_id,
                reservation_time,
                party_size,
                payment_amount,
                payment_asset,
            ).0,
            Call::Confirm { approved, reservation_id, customer_id, paid } => self.confirm(
                approved,
                reservation_id,
                customer_id,
                paid,
            ).0,
            Call::Update { approved, reservation_id, new_status, paid } => self.update(
                approved,
                reservation_id,
                new_status,
                paid,
            ).0,
        }
    }

    /// The state after a sequence of calls, first to last.
    pub open spec fn run(self, calls: Seq<Call>) -> State
        decreases calls.len(),
    {
        if calls.len() == 0 {
            self
        } else {
            self.step(calls[0]).run(calls.drop_first())
        }
    }

    /// The identifier that the call returns, where it is a creation that
    /// succeeds.
    pub open spec fn issued_id(self, call: Call) -> Option<u64> {
        match call {
            Call::Create {
                approved,
                business_id,
                reservation_time,
                party_size,
                payment_amount,
                payment_asset,
            } => match self.create(
                approved,
                business_id,
                reservation_time,
                party_size,
                payment_amount,
                payment_asset,
            ).1 {
                Ok(id) => Some(id),
                Err(_) => None,
            },
            _ => None,
        }
    }

    /// The identifiers that the creations in a sequence of calls return, in
    /// the order of the calls.
    pub open spec fn issued_ids(self, calls: Seq<Call>) -> Seq<u64>
        decreases calls.len(),
    {
        if calls.len() == 0 {
            Seq::empty()
        } else {
            let rest = self.step(calls[0]).issued_ids(calls.drop_first());
            match self.issued_id(calls[0]) {
                Some(id) => seq![id] + rest,
                None => rest,
            }
        }
    }

    /// The call pays the reward for the reservation `id`: it resolves that
    /// reservation, a reward is due, and the asset moves it.
    pub open spec fn pays_reward(self, call: Call, id: u64) -> bool {
        call matches Call::Update { approved, reservation_id, new_status, paid } && reservation_id
            == id && paid && self.update_check(approved, reservation_id, new_status) matches Ok(
            Some(_),
        )
    }

    /// How often a sequence of calls pays the reward for the reservation
    /// `id`.
    pub open spec fn rewards_paid(self, calls: Seq<Call>, id: u64) -> nat
        decreases calls.len(),
    {
        if calls.len() == 0 {
            0
        } else {
            let rest = self.step(calls[0]).rewards_paid(calls.drop_first(), id);
            if self.pays_reward(calls[0], id) {
                1 + rest
            } else {
                rest
            }
        }
    }
}

} // verus!
