//! What holds of the contract whatever is done with it.
//!
//! Each law is proved about the model that the operations are specified
//! against, so it holds of the executable contract too.

use crate::error::ContractError;
use crate::escrow::Transfer;
use crate::history::Call;
use crate::model::State;
use crate::reservation::Configuration;
use crate::status::ReservationStatus;
use soroban_sdk::Address;
use vstd::prelude::*;

verus! {

/// A call keeps every record storable, as long as the identifiers have not
/// run out.
pub proof fn step_keeps_wf(s: State, call: Call)
    requires
        s.wf(),
        s.next_id() < u64::MAX,
    ensures
        s.step(call).wf(),
{
    let t = s.step(call);
    assert forall|i: int| 0 <= i < t.records.len() implies (#[trigger] t.records[i]).wf() by {
        if i < s.records.len() {
            assert(s.records[i].wf());
        }
    }
}

/// One call changes a reservation in one way at most: it takes its status
/// one edge forward. It never removes a reservation, and never changes who
/// the business is, the time, the party size, the amount or the asset.
pub proof fn step_moves_forward(s: State, call: Call, id: u64)
    requires
        s.has(id),
    ensures
        s.step(call).has(id),
        s.step(call).records[id as int].same_booking(s.records[id as int]),
        s.step(call).records[id as int].status == s.records[id as int].status
            || s.records[id as int].status.may_become(s.step(call).records[id as int].status),
        s.step(call).records[id as int].status == s.records[id as int].status
            && s.step(call).records[id as int].loyalty_issued == s.records[id as int].loyalty_issued
            ==> s.step(call).records[id as int] == s.records[id as int],
{
}

/// Over any sequence of calls the status of a reservation only moves
/// forward along `Pending`, `Confirmed`, then `Completed` or `NoShow`: where
/// it stands afterwards is where it stood before or lies ahead of it, and
/// the booking itself is unchanged.
pub proof fn status_only_moves_forward(s: State, calls: Seq<Call>, id: u64)
    requires
        s.has(id),
    ensures
        s.run(calls).has(id),
        s.records[id as int].status.reaches(s.run(calls).records[id as int].status),
        s.run(calls).records[id as int].same_booking(s.records[id as int]),
    decreases calls.len(),
{
    if calls.len() > 0 {
        step_moves_forward(s, calls[0], id);
        status_only_moves_forward(s.step(calls[0]), calls.drop_first(), id);
    }
}

/// The identifiers that creations return count up by one from the number
/// of reservations that existed before, without gaps or repeats, whatever
/// other calls come in between. From the empty state they are 0, 1, 2, ...
pub proof fn ids_count_up(s: State, calls: Seq<Call>)
    requires
        s.next_id() + calls.len() <= u64::MAX,
    ensures
        s.run(calls).next_id() == s.next_id() + s.issued_ids(calls).len(),
        s.issued_ids(calls).len() <= calls.len(),
        forall|k: int|
            0 <= k < s.issued_ids(calls).len() ==> #[trigger] s.issued_ids(calls)[k] == s.next_id()
                + k,
    decreases calls.len(),
{
    if calls.len() > 0 {
        let next = s.step(calls[0]);
        let rest = calls.drop_first();
        ids_count_up(next, rest);
        match s.issued_id(calls[0]) {
            Some(id) => {
                assert(id == s.next_id());
                assert(next.next_id() == s.next_id() + 1);
                assert(s.issued_ids(calls) == seq![id] + next.issued_ids(rest));
                assert forall|k: int| 0 <= k < s.issued_ids(calls).len() implies #[trigger] s.issued_ids(
                    calls,
                )[k] == s.next_id() + k by {
                    if k > 0 {
                        assert(s.issued_ids(calls)[k] == next.issued_ids(rest)[k - 1]);
                    }
                }
            },
            None => {
                assert(next.next_id() == s.next_id());
                assert(s.issued_ids(calls) == next.issued_ids(rest));
            },
        }
    }
}

/// Started from nothing, the creations return 0, 1, 2, ... in this order.
pub proof fn ids_start_at_zero(calls: Seq<Call>)
    requires
        calls.len() <= u64::MAX,
    ensures
        forall|k: int|
            0 <= k < State::empty().issued_ids(calls).len() ==> #[trigger] State::empty().issued_ids(
                calls,
            )[k] == k,
{
    ids_count_up(State::empty(), calls);
}

/// Confirming fails, and changes nothing, unless the reservation exists and
/// is `Pending`: on an unknown identifier and on a reservation that is
/// `Confirmed`, `Completed`, `NoShow` or `Cancelled`, whatever the asset
/// would have answered.
pub proof fn confirm_needs_pending(
    s: State,
    approved: Set<Address>,
    id: u64,
    customer_id: Address,
    paid: bool,
)
    requires
        !s.has(id) || s.records[id as int].status != ReservationStatus::Pending,
    ensures
        s.confirm(approved, id, customer_id, paid).0 == s,
        s.confirm(approved, id, customer_id, paid).1 is Err,
        approved.contains(customer_id) && !s.has(id) ==> s.confirm(
            approved,
            id,
            customer_id,
            paid,
        ).1 == Err::<(), ContractError>(ContractError::NotFound),
        approved.contains(customer_id) && s.has(id) ==> s.confirm(
            approved,
            id,
            customer_id,
            paid,
        ).1 == Err::<(), ContractError>(ContractError::InvalidState),
{
}

/// When the payment fails, the confirmation fails with `TransferError` and
/// the reservation stays `Pending` in an unchanged state; the same call
/// made again succeeds as soon as the asset makes the payment, and leaves
/// the reservation `Confirmed` for that customer.
pub proof fn failed_payment_can_be_retried(
    s: State,
    approved: Set<Address>,
    id: u64,
    customer_id: Address,
)
    requires
        s.confirm_check(approved, id, customer_id) is Ok,
    ensures
        s.confirm(approved, id, customer_id, false) == (
            s,
            Err::<(), ContractError>(ContractError::TransferError),
        ),
        s.records[id as int].status == ReservationStatus::Pending,
        s.confirm(approved, id, customer_id, false).0.confirm(approved, id, customer_id, true).1
            is Ok,
        s.confirm(approved, id, customer_id, true).0.records[id as int].status
            == ReservationStatus::Confirmed,
        s.confirm(approved, id, customer_id, true).0.records[id as int].customer_id == Some(
            customer_id,
        ),
{
}

/// A successful resolution as `Completed` leaves the reservation
/// `Completed` and rewarded, and one as `NoShow` leaves it `NoShow` with
/// the reward flag as it was.
pub proof fn resolution_marks_reward(
    s: State,
    approved: Set<Address>,
    id: u64,
    new_status: ReservationStatus,
    paid: bool,
)
    requires
        s.update(approved, id, new_status, paid).1 is Ok,
    ensures
        s.records[id as int].status == ReservationStatus::Confirmed,
        s.update(approved, id, new_status, paid).0.records[id as int].status == new_status,
        new_status == ReservationStatus::Completed ==> s.update(
            approved,
            id,
            new_status,
            paid,
        ).0.records[id as int].loyalty_issued,
        new_status == ReservationStatus::NoShow ==> s.update(
            approved,
            id,
            new_status,
            paid,
        ).0.records[id as int].loyalty_issued == s.records[id as int].loyalty_issued,
        s.update_check(approved, id, new_status) matches Ok(Some(_)) ==> paid,
{
}

/// Once a reservation is `Completed`, `NoShow` or `Cancelled`, resolving it
/// asks for no transfer, fails and changes nothing: with `InvalidState`
/// when asked for `Completed` or `NoShow`, with `InvalidTransition`
/// otherwise.
pub proof fn resolved_stays_resolved(
    s: State,
    approved: Set<Address>,
    id: u64,
    new_status: ReservationStatus,
    paid: bool,
)
    requires
        s.has(id),
        s.records[id as int].status.is_final(),
    ensures
        s.update_check(approved, id, new_status) is Err,
        s.update(approved, id, new_status, paid) == (
            s,
            Err::<(), ContractError>(
                if new_status.is_outcome() {
                    ContractError::InvalidState
                } else {
                    ContractError::InvalidTransition
                },
            ),
        ),
{
}

/// No sequence of calls pays a reward for a reservation that is already
/// `Completed`, `NoShow` or `Cancelled`.
pub proof fn no_reward_once_resolved(s: State, calls: Seq<Call>, id: u64)
    requires
        s.has(id),
        s.records[id as int].status.is_final(),
    ensures
        s.rewards_paid(calls, id) == 0,
    decreases calls.len(),
{
    if calls.len() > 0 {
        step_moves_forward(s, calls[0], id);
        no_reward_once_resolved(s.step(calls[0]), calls.drop_first(), id);
    }
}

/// Over any sequence of calls, however often the resolution is repeated and
/// whatever the asset answers, the reward for one reservation is paid at
/// most once.
pub proof fn reward_paid_at_most_once(s: State, calls: Seq<Call>, id: u64)
    ensures
        s.rewards_paid(calls, id) <= 1,
    decreases calls.len(),
{
    if calls.len() > 0 {
        let next = s.step(calls[0]);
        if s.pays_reward(calls[0], id) {
            assert(next.has(id));
            assert(next.records[id as int].status == ReservationStatus::Completed);
            no_reward_once_resolved(next, calls.drop_first(), id);
        } else {
            reward_paid_at_most_once(next, calls.drop_first(), id);
        }
    }
}

/// The principals that `update_signers` names are the ones whose approval a
/// resolution looks at: with all of them it is never turned down as
/// `Unauthorized`, and it is never allowed without all of them.
pub proof fn signers_decide_approval(
    s: State,
    approved: Set<Address>,
    id: u64,
    new_status: ReservationStatus,
)
    ensures
        (forall|k: int|
            0 <= k < s.update_signers(id, new_status).len() ==> approved.contains(
                #[trigger] s.update_signers(id, new_status)[k],
            )) ==> s.update_check(approved, id, new_status) != Err::<
            Option<Transfer>,
            ContractError,
        >(ContractError::Unauthorized),
        s.update_check(approved, id, new_status) is Ok ==> forall|k: int|
            0 <= k < s.update_signers(id, new_status).len() ==> approved.contains(
                #[trigger] s.update_signers(id, new_status)[k],
            ),
{
    let signers = s.update_signers(id, new_status);
    if signers.len() > 0 {
        assert(signers[0] == s.records[id as int].business_id);
        if signers.len() > 1 {
            assert(signers[1] == s.config->0.owner);
        }
    }
}

/// Initialising a second time fails with `AlreadyInitialized` and leaves
/// the owner and the token as the first call set them.
pub proof fn initialize_only_once(
    s: State,
    owner: Address,
    loyalty_token_id: Address,
    other_owner: Address,
    other_token: Address,
)
    requires
        s.initialize(owner, loyalty_token_id).1 is Ok,
    ensures
        s.initialize(owner, loyalty_token_id).0.config == Some(
            Configuration { owner, loyalty_token_id },
        ),
        s.initialize(owner, loyalty_token_id).0.initialize(other_owner, other_token) == (
            s.initialize(owner, loyalty_token_id).0,
            Err::<(), ContractError>(ContractError::AlreadyInitialized),
        ),
{
}

/// Once set, the configuration survives every sequence of calls.
pub proof fn configuration_is_kept(s: State, calls: Seq<Call>)
    requires
        s.config is Some,
    ensures
        s.run(calls).config == s.config,
    decreases calls.len(),
{
    if calls.len() > 0 {
        configuration_is_kept(s.step(calls[0]), calls.drop_first());
    }
}

} // verus!
