//! The contract: the store of reservations and the operations on it.
//!
//! Every operation either does all of its work or fails and leaves the
//! store as it was. An operation that needs value to move is made of two
//! halves with exact contracts: a check that names the transfer, and a
//! commit that takes the asset's answer. The operation itself joins them
//! around the one call that it cannot decide.

use crate::error::ContractError;
use crate::escrow::{execute, Transfer, TransferError, LOYALTY_REWARD};
use crate::model::State;
use crate::principal::{copy_address, copy_optional, same_address, Approvals};
use crate::reservation::{Configuration, Reservation};
use crate::status::ReservationStatus;
use soroban_sdk::Address;
use vstd::prelude::*;

verus! {

/// The reservation contract. It owns the configuration and the table of
/// reservations; a reservation's identifier is its position in the table.
pub struct ReserveLContract {
    config: Option<Configuration>,
    reservations: Vec<Reservation>,
}

impl View for ReserveLContract {
    type V = State;

    closed spec fn view(&self) -> State {
        State { config: self.config, records: self.reservations@ }
    }
}

impl ReserveLContract {
    /// The store holds only records that can be stored.
    pub open spec fn wf(&self) -> bool {
        self@.wf()
    }

    /// A contract that has not been initialised and holds no reservation.
    pub fn new() -> (contract: ReserveLContract)
        ensures
            contract@ == State::empty(),
            contract.wf(),
    {
        ReserveLContract { config: None, reservations: Vec::new() }
    }

    /// Rebuilds a contract from what was stored. Records that could not
    /// have been stored by the contract are turned away.
    pub fn restore(
        config: Option<Configuration>,
        reservations: Vec<Reservation>,
    ) -> (restored: Option<ReserveLContract>)
        ensures
            restored is Some <==> (State { config, records: reservations@ }).wf(),
            restored matches Some(contract) ==> contract@ == (State {
                config,
                records: reservations@,
            }),
    {
        let mut i: usize = 0;
        while i < reservations.len()
            invariant
                i <= reservations.len(),
                forall|j: int| 0 <= j < i ==> (#[trigger] reservations@[j]).wf(),
            decreases reservations.len() - i,
        {
            if !reservations[i].is_valid() {
                return None;
            }
            i += 1;
        }
        Some(ReserveLContract { config, reservations })
    }

    /// Where the reservation with this identifier lies in the table.
    fn slot(&self, reservation_id: u64) -> (at: Option<usize>)
        ensures
            at is Some <==> self@.has(reservation_id),
            at matches Some(i) ==> i == reservation_id,
    {
        if reservation_id < self.reservations.len() as u64 {
            Some(reservation_id as usize)
        } else {
            None
        }
    }

    /// The identifier that the next reservation gets: the number of
    /// reservations created so far.
    pub fn next_id(&self) -> (id: u64)
        ensures
            id == self@.next_id(),
    {
        self.reservations.len() as u64
    }

    /// Sets the configuration. Fails with `AlreadyInitialized`, and changes
    /// nothing, when it has been set before.
    pub fn initialize(
        &mut self,
        owner: Address,
        loyalty_token_id: Address,
    ) -> (done: Result<(), ContractError>)
        ensures
            (final(self)@, done) == old(self)@.initialize(owner, loyalty_token_id),
            old(self).wf() ==> final(self).wf(),
    {
        if self.config.is_some() {
            return Err(ContractError::AlreadyInitialized);
        }
        self.config = Some(Configuration { owner, loyalty_token_id });
        Ok(())
    }

    /// Creates a reservation for `business_id` and returns its identifier.
    ///
    /// Fails with `Unauthorized` when the business has not approved, else
    /// with `InvalidInput` when the amount is negative. The identifiers
    /// must not have run out.
    pub fn create_reservation(
        &mut self,
        approvals: &Approvals,
        business_id: Address,
        reservation_time: u64,
        party_size: u32,
        payment_amount: i128,
        payment_asset: Address,
    ) -> (created: Result<u64, ContractError>)
        requires
            old(self)@.next_id() < u64::MAX,
        ensures
            (final(self)@, created) == old(self)@.create(
                approvals@,
                business_id,
                reservation_time,
                party_size,
                payment_amount,
                payment_asset,
            ),
            old(self).wf() ==> final(self).wf(),
    {
        if !approvals.covers(&business_id) {
            return Err(ContractError::Unauthorized);
        }
        if payment_amount < 0 {
            return Err(ContractError::InvalidInput);
        }
        let id = self.reservations.len() as u64;
        self.reservations.push(
            Reservation {
                business_id,
                customer_id: None,
                reservation_time,
                party_size,
                payment_amount,
                payment_asset,
                status: ReservationStatus::Pending,
                loyalty_issued: false,
            },
        );
        Ok(id)
    }

    /// Decides whether `customer_id` may confirm the reservation, and names
    /// the payment that the confirmation rests on. Changes nothing.
    pub fn payment_due(
        &self,
        approvals: &Approvals,
        reservation_id: u64,
        customer_id: &Address,
    ) -> (due: Result<Transfer, ContractError>)
        ensures
            due == self@.confirm_check(approvals@, reservation_id, *customer_id),
    {
        if !approvals.covers(customer_id) {
            return Err(ContractError::Unauthorized);
        }
        let record = match self.slot(reservation_id) {
            Some(at) => &self.reservations[at],
            None => {
                return Err(ContractError::NotFound);
            },
        };
        match record.status {
            ReservationStatus::Pending => {},
            _ => {
                return Err(ContractError::InvalidState);
            },
        }
        match &record.customer_id {
            Some(assigned) => {
                if !same_address(assigned, customer_id) {
                    return Err(ContractError::Unauthorized);
                }
            },
            None => {},
        }
        Ok(
            Transfer {
                asset: copy_address(&record.payment_asset),
                from: copy_address(customer_id),
                to: copy_address(&record.business_id),
                amount: record.payment_amount,
            },
        )
    }

    /// Finishes a confirmation once the asset has answered: the reservation
    /// becomes `Confirmed` when the payment was made, and stays as it was,
    /// with `TransferError`, when it was not.
    pub fn settle_confirmation(
        &mut self,
        approvals: &Approvals,
        reservation_id: u64,
        customer_id: Address,
        payment: Result<(), TransferError>,
    ) -> (done: Result<(), ContractError>)
        ensures
            (final(self)@, done) == old(self)@.confirm(
                approvals@,
                reservation_id,
                customer_id,
                payment is Ok,
            ),
            old(self).wf() ==> final(self).wf(),
    {
        match self.payment_due(approvals, reservation_id, &customer_id) {
            Err(e) => {
                return Err(e);
            },
            Ok(_) => {},
        }
        if payment.is_err() {
            return Err(ContractError::TransferError);
        }
        let at = match self.slot(reservation_id) {
            Some(at) => at,
            None => {
                return Err(ContractError::NotFound);
            },
        };
        let record = &self.reservations[at];
        let confirmed = Reservation {
            business_id: copy_address(&record.business_id),
            customer_id: match &record.customer_id {
                None => Some(customer_id),
                Some(assigned) => Some(copy_address(assigned)),
            },
            reservation_time: record.reservation_time,
            party_size: record.party_size,
            payment_amount: record.payment_amount,
            payment_asset: copy_address(&record.payment_asset),
            status: ReservationStatus::Confirmed,
            loyalty_issued: record.loyalty_issued,
        };
        self.reservations.set(at, confirmed);
        assert(self@.records =~= old(self)@.records.update(at as int, confirmed));
        Ok(())
    }

    /// Confirms a reservation for `customer_id`, who pays the amount to the
    /// business.
    ///
    /// Fails with `Unauthorized` when the customer has not approved, else
    /// with `NotFound`, else with `InvalidState` when the reservation is
    /// not `Pending`, else with `Unauthorized` when it is assigned to
    /// another customer. Then the payment is attempted: when the asset
    /// makes it, the reservation becomes `Confirmed`; when it does not, the
    /// call fails with `TransferError`. Every failure leaves the store as
    /// it was, so a confirmation that failed on the payment can be tried
    /// again.
    pub fn confirm_reservation(
        &mut self,
        approvals: &Approvals,
        reservation_id: u64,
        customer_id: Address,
    ) -> (done: Result<(), ContractError>)
        ensures
            (final(self)@, done) == old(self)@.confirm(
                approvals@,
                reservation_id,
                customer_id,
                true,
            ) || (final(self)@, done) == old(self)@.confirm(
                approvals@,
                reservation_id,
                customer_id,
                false,
            ),
            old(self).wf() ==> final(self).wf(),
    {
        match self.payment_due(approvals, reservation_id, &customer_id) {
            Err(e) => Err(e),
            Ok(due) => {
                let payment = execute(&due);
                self.settle_confirmation(approvals, reservation_id, customer_id, payment)
            },
        }
    }

    /// Decides whether the reservation may be resolved to `new_status`, and
    /// names the reward that has to be paid first, if one is due. Changes
    /// nothing.
    pub fn reward_due(
        &self,
        approvals: &Approvals,
        reservation_id: u64,
        new_status: ReservationStatus,
    ) -> (due: Result<Option<Transfer>, ContractError>)
        ensures
            due == self@.update_check(approvals@, reservation_id, new_status),
    {
        let record = match self.slot(reservation_id) {
            Some(at) => &self.reservations[at],
            None => {
                return Err(ContractError::NotFound);
            },
        };
        let completing = match new_status {
            ReservationStatus::Completed => true,
            ReservationStatus::NoShow => false,
            _ => {
                return Err(ContractError::InvalidTransition);
            },
        };
        match record.status {
            ReservationStatus::Confirmed => {},
            _ => {
                return Err(ContractError::InvalidState);
            },
        }
        if !approvals.covers(&record.business_id) {
            return Err(ContractError::Unauthorized);
        }
        if !completing || record.loyalty_issued {
            return Ok(None);
        }
        let config = match &self.config {
            None => {
                return Err(ContractError::NotInitialized);
            },
            Some(config) => config,
        };
        if !approvals.covers(&config.owner) {
            return Err(ContractError::Unauthorized);
        }
        match &record.customer_id {
            None => Err(ContractError::InvalidState),
            Some(customer_id) => Ok(
                Some(
                    Transfer {
                        asset: copy_address(&config.loyalty_token_id),
                        from: copy_address(&config.owner),
                        to: copy_address(customer_id),
                        amount: LOYALTY_REWARD,
                    },
                ),
            ),
        }
    }

    /// Finishes a resolution once the asset has answered. Where a reward
    /// was due and was not paid, the call fails with `TransferError` and
    /// the reservation stays `Confirmed`; otherwise it takes the new
    /// status, and a completed visit is marked as rewarded. Where no reward
    /// was due, `reward` is not looked at.
    pub fn settle_update(
        &mut self,
        approvals: &Approvals,
        reservation_id: u64,
        new_status: ReservationStatus,
        reward: Result<(), TransferError>,
    ) -> (done: Result<(), ContractError>)
        ensures
            (final(self)@, done) == old(self)@.update(
                approvals@,
                reservation_id,
                new_status,
                reward is Ok,
            ),
            old(self).wf() ==> final(self).wf(),
    {
        let due = match self.reward_due(approvals, reservation_id, new_status) {
            Err(e) => {
                return Err(e);
            },
            Ok(due) => due,
        };
        if due.is_some() && reward.is_err() {
            return Err(ContractError::TransferError);
        }
        let completing = match new_status {
            ReservationStatus::Completed => true,
            _ => false,
        };
        let at = match self.slot(reservation_id) {
            Some(at) => at,
            None => {
                return Err(ContractError::NotFound);
            },
        };
        let record = &self.reservations[at];
        let resolved = Reservation {
            business_id: copy_address(&record.business_id),
            customer_id: copy_optional(&record.customer_id),
            reservation_time: record.reservation_time,
            party_size: record.party_size,
            payment_amount: record.payment_amount,
            payment_asset: copy_address(&record.payment_asset),
            status: new_status,
            loyalty_issued: record.loyalty_issued || completing,
        };
        self.reservations.set(at, resolved);
        assert(self@.records =~= old(self)@.records.update(at as int, resolved));
        Ok(())
    }

    /// Resolves a confirmed reservation as `Completed` or as `NoShow`.
    ///
    /// Fails with `NotFound`, else with `InvalidTransition` when
    /// `new_status` is neither of the two, else with `InvalidState` when
    /// the reservation is not `Confirmed`, else with `Unauthorized` when
    /// the business has not approved. A no-show is then recorded. For a
    /// completed visit that has not been rewarded the call fails with
    /// `NotInitialized` when there is no configuration, else with
    /// `Unauthorized` when the owner has not approved; then the reward is
    /// attempted, from the owner to the customer. When the asset pays it,
    /// the reservation becomes `Completed` and is marked as rewarded, in
    /// one step; when it does not, the call fails with `TransferError`.
    /// Every failure leaves the store as it was.
    pub fn update_reservation_status(
        &mut self,
        approvals: &Approvals,
        reservation_id: u64,
        new_status: ReservationStatus,
    ) -> (done: Result<(), ContractError>)
        ensures
            (final(self)@, done) == old(self)@.update(
                approvals@,
                reservation_id,
                new_status,
                true,
            ) || (final(self)@, done) == old(self)@.update(
                approvals@,
                reservation_id,
                new_status,
                false,
            ),
            old(self).wf() ==> final(self).wf(),
    {
        match self.reward_due(approvals, reservation_id, new_status) {
            Err(e) => Err(e),
            Ok(None) => self.settle_update(approvals, reservation_id, new_status, Ok(())),
            Ok(Some(due)) => {
                let reward = execute(&due);
                self.settle_update(approvals, reservation_id, new_status, reward)
            },
        }
    }

    /// The principals whose approval has to be collected before the
    /// reservation is resolved to `new_status`.
    pub fn signers_for_update(
        &self,
        reservation_id: u64,
        new_status: ReservationStatus,
    ) -> (signers: Vec<Address>)
        ensures
            signers@ == self@.update_signers(reservation_id, new_status),
    {
        let mut signers: Vec<Address> = Vec::new();
        let record = match self.slot(reservation_id) {
            Some(at) => &self.reservations[at],
            None => {
                return signers;
            },
        };
        let completing = match new_status {
            ReservationStatus::Completed => true,
            ReservationStatus::NoShow => false,
            _ => {
                return signers;
            },
        };
        match record.status {
            ReservationStatus::Confirmed => {},
            _ => {
                return signers;
            },
        }
        signers.push(copy_address(&record.business_id));
        if completing && !record.loyalty_issued {
            match &self.config {
                Some(config) => {
                    signers.push(copy_address(&config.owner));
                },
                None => {},
            }
        }
        assert(signers@ =~= self@.update_signers(reservation_id, new_status));
        signers
    }

    /// Decides whether `business_id` may have loyalty tokens made, and
    /// names the transfer that makes them.
    pub fn loyalty_due(
        &self,
        business_id: &Address,
        amount: i128,
    ) -> (due: Result<Transfer, ContractError>)
        ensures
            due == self@.loyalty_check(*business_id, amount),
    {
        match &self.config {
            None => Err(ContractError::NotInitialized),
            Some(config) => {
                if !same_address(business_id, &config.owner) {
                    return Err(ContractError::Unauthorized);
                }
                Ok(
                    Transfer {
                        asset: copy_address(&config.loyalty_token_id),
                        from: copy_address(business_id),
                        to: copy_address(business_id),
                        amount,
                    },
                )
            },
        }
    }

    /// Has `amount` of the loyalty token moved from the owner's balance to
    /// the owner's balance.
    ///
    /// Fails with `NotInitialized` when there is no configuration, else
    /// with `Unauthorized` when `business_id` is not the owner, else with
    /// `TransferError` when the token refuses. The store is not touched.
    pub fn create_loyalty_token(
        &self,
        business_id: Address,
        amount: i128,
    ) -> (done: Result<(), ContractError>)
        ensures
            match self@.loyalty_check(business_id, amount) {
                Err(e) => done == Err::<(), ContractError>(e),
                Ok(_) => done is Ok || done == Err::<(), ContractError>(
                    ContractError::TransferError,
                ),
            },
    {
        match self.loyalty_due(&business_id, amount) {
            Err(e) => Err(e),
            Ok(due) => match execute(&due) {
                Ok(()) => Ok(()),
                Err(_) => Err(ContractError::TransferError),
            },
        }
    }

    /// The reservation with this identifier, or `None` when there is none.
    pub fn get_reservation(&self, reservation_id: u64) -> (found: Option<Reservation>)
        ensures
            found == self@.lookup(reservation_id),
    {
        match self.slot(reservation_id) {
            Some(at) => Some(self.reservations[at].clone()),
            None => None,
        }
    }

    /// The token in which rewards are paid. Fails with `NotInitialized`
    /// when there is no configuration.
    pub fn get_loyalty_token_id(&self) -> (token: Result<Address, ContractError>)
        ensures
            match self@.config {
                Some(config) => token == Ok::<Address, ContractError>(config.loyalty_token_id),
                None => token == Err::<Address, ContractError>(ContractError::NotInitialized),
            },
    {
        match &self.config {
            Some(config) => Ok(copy_address(&config.loyalty_token_id)),
            None => Err(ContractError::NotInitialized),
        }
    }

    /// The principal who approves rewards. Fails with `NotInitialized` when
    /// there is no configuration.
    pub fn get_owner(&self) -> (owner: Result<Address, ContractError>)
        ensures
            match self@.config {
                Some(config) => owner == Ok::<Address, ContractError>(config.owner),
                None => owner == Err::<Address, ContractError>(ContractError::NotInitialized),
            },
    {
        match &self.config {
            Some(config) => Ok(copy_address(&config.owner)),
            None => Err(ContractError::NotInitialized),
        }
    }
}

} // verus!
