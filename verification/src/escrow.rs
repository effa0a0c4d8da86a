//! Moving value: the payment that confirms a reservation and the reward for
//! a completed visit.
//!
//! The library decides which transfer an operation needs. Before the token
//! is asked, the transfer is prepared: the asset has to name a contract,
//! since the host will call nothing else, and the payer and the payee are
//! made known to the host that the token lives in. A transfer that cannot
//! be prepared has failed. Once it is prepared, the token alone decides
//! whether the value moves, so every caller is written for both answers.

use crate::principal::copy_address;
use soroban_sdk::address_payload::AddressPayload;
use soroban_sdk::token::TokenClient;
use soroban_sdk::{Address, BytesN};
use vstd::prelude::*;

verus! {

/// What is paid to a customer for a completed visit: 100 units of the
/// loyalty token, which counts in 1/10,000,000 of a unit.
pub const LOYALTY_REWARD: i128 = 1_000_000_000;

/// The asset did not move the value.
#[derive(Clone, Copy, Debug, PartialEq, Eq, Structural)]
pub struct TransferError;

/// An instruction to move `amount` of `asset` from `from` to `to`.
#[derive(Debug, PartialEq, Eq)]
pub struct Transfer {
    pub asset: Address,
    pub from: Address,
    pub to: Address,
    pub amount: i128,
}

impl Clone for Transfer {
    fn clone(&self) -> (copy: Transfer)
        ensures
            copy == *self,
    {
        Transfer {
            asset: copy_address(&self.asset),
            from: copy_address(&self.from),
            to: copy_address(&self.to),
            amount: self.amount,
        }
    }
}

/// An address of which the kind is known, held by a chosen host.
pub(crate) enum Located {
    Account(Address),
    Contract(Address),
}

impl Located {
    /// The address, whatever its kind.
    pub(crate) fn address(self) -> (address: Address)
        ensures
            address == match self {
                Located::Account(a) => a,
                Located::Contract(a) => a,
            },
    {
        match self {
            Located::Account(a) => a,
            Located::Contract(a) => a,
        }
    }
}

/// Trusted: `soroban_sdk::address_payload::AddressPayload::from_address`
/// and `AddressPayload::to_address`.
///
/// `from_address` reads from `who` whether it names an account or a
/// contract, and the 32 bytes of the key or of the contract's hash; it
/// gives nothing for a kind it does not know. `to_address` makes the
/// address of that kind and those bytes in the host that `home` lives in;
/// the bytes are carried over as a plain array. The contract claims that
/// the address made names what `who` names. It does not say which kind
/// comes back: that is read from the variant.
#[verifier::external_body]
pub(crate) fn locate(home: &Address, who: &Address) -> (located: Option<Located>)
    ensures
        located matches Some(Located::Account(a)) ==> a == *who,
        located matches Some(Located::Contract(a)) ==> a == *who,
{
    let env = home.env();
    match AddressPayload::from_address(who) {
        Some(AddressPayload::AccountIdPublicKeyEd25519(key)) => {
            let bytes = BytesN::from_array(env, &key.to_array());
            Some(Located::Account(AddressPayload::AccountIdPublicKeyEd25519(bytes).to_address(env)))
        },
        Some(AddressPayload::ContractIdHash(hash)) => {
            let bytes = BytesN::from_array(env, &hash.to_array());
            Some(Located::Contract(AddressPayload::ContractIdHash(bytes).to_address(env)))
        },
        None => None,
    }
}

/// A transfer that the token can be asked for: the asset names a contract,
/// and the payer and the payee are held by the host that the token lives
/// in. Only `prepare` makes one.
pub(crate) struct Order {
    token: Address,
    from: Address,
    to: Address,
    amount: i128,
}

impl View for Order {
    type V = Transfer;

    closed spec fn view(&self) -> Transfer {
        Transfer { asset: self.token, from: self.from, to: self.to, amount: self.amount }
    }
}

impl Order {
    /// Prepares a transfer for its token. There is no order where the asset
    /// does not name a contract, or where an address is of a kind that is
    /// not known; an order that is made stands for the transfer given.
    pub(crate) fn prepare(transfer: &Transfer) -> (order: Option<Order>)
        ensures
            order matches Some(prepared) ==> prepared@ == *transfer,
    {
        let token = match locate(&transfer.asset, &transfer.asset) {
            Some(Located::Contract(token)) => token,
            _ => {
                return None;
            },
        };
        let from = match locate(&token, &transfer.from) {
            Some(located) => located.address(),
            None => {
                return None;
            },
        };
        let to = match locate(&token, &transfer.to) {
            Some(located) => located.address(),
            None => {
                return None;
            },
        };
        Some(Order { token, from, to, amount: transfer.amount })
    }
}

/// Trusted: `soroban_sdk::token::TokenClient::try_transfer`.
///
/// Asks the token contract of the order to move the amount from the payer
/// to the payee, and gives a failure of the token back as a value. It takes
/// an `Order` because the host aborts, instead of answering, when it is
/// asked to call an address that is not a contract or is handed an address
/// that it does not hold. Whether the value moves depends on the token and
/// on the ledger (the balance, the approval of the payer), so nothing is
/// claimed of the answer.
#[verifier::external_body]
pub(crate) fn move_value(order: &Order) -> (moved: Result<(), TransferError>) {
    let token = TokenClient::new(order.token.env(), &order.token);
    match token.try_transfer(&order.from, &order.to, &order.amount) {
        Ok(Ok(())) => Ok(()),
        _ => Err(TransferError),
    }
}

/// Carries out a transfer: prepares it and asks the token. A transfer that
/// cannot be prepared fails without the token being asked.
pub(crate) fn execute(transfer: &Transfer) -> (moved: Result<(), TransferError>) {
    match Order::prepare(transfer) {
        Some(order) => move_value(&order),
        None => Err(TransferError),
    }
}

} // verus!
