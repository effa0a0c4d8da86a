//! Principals: the identities that own, book and pay.
//!
//! A principal is a `soroban_sdk::Address`. The library never looks inside
//! one: it stores them, hands them on and asks whether two are the same.

use soroban_sdk::Address;
use vstd::prelude::*;

verus! {

/// Trusted: the type `soroban_sdk::Address`, taken as it is. Nothing is
/// known of what a value holds.
#[verifier::external_type_specification]
#[verifier::external_body]
pub struct ExAddress(soroban_sdk::Address);

/// Trusted: `<Address as PartialEq>::eq`.
///
/// The host orders two addresses by the account or contract they name and
/// `eq` reports whether that order finds them equal. The contract reads
/// equality of two `Address` values in specifications as exactly that: they
/// name the same account or contract.
#[verifier::external_body]
pub(crate) fn same_address(a: &Address, b: &Address) -> (same: bool)
    ensures
        same == (*a == *b),
{
    a.eq(b)
}

/// Trusted: `<Address as Clone>::clone`.
///
/// The clone is a second handle on the same host object, so it names the
/// principal that `a` names.
#[verifier::external_body]
pub(crate) fn copy_address(a: &Address) -> (copy: Address)
    ensures
        copy == *a,
{
    a.clone()
}

/// Copies an optional principal.
pub(crate) fn copy_optional(a: &Option<Address>) -> (copy: Option<Address>)
    ensures
        copy == *a,
{
    match a {
        Some(who) => Some(copy_address(who)),
        None => None,
    }
}

/// The principals that have authorised the operation in progress.
///
/// Whoever drives the library collects the approvals from the authorisation
/// service and hands them in; the library only asks whether a given
/// principal is among them.
pub struct Approvals {
    signers: Vec<Address>,
}

impl View for Approvals {
    type V = Set<Address>;

    closed spec fn view(&self) -> Set<Address> {
        self.signers@.to_set()
    }
}

impl Approvals {
    /// No principal has authorised anything.
    pub fn new() -> (approvals: Approvals)
        ensures
            approvals@ == Set::<Address>::empty(),
    {
        let approvals = Approvals { signers: Vec::new() };
        assert(approvals.signers@.to_set() =~= Set::<Address>::empty());
        approvals
    }

    /// Records that `who` has authorised the operation.
    pub fn grant(&mut self, who: Address)
        ensures
            final(self)@ == old(self)@.insert(who),
    {
        self.signers.push(who);
        proof {
            old(self).signers@.lemma_push_to_set_commute(who);
        }
    }

    /// Whether `who` is among the principals that authorised the operation.
    pub fn covers(&self, who: &Address) -> (covered: bool)
        ensures
            covered == self@.contains(*who),
    {
        let mut i: usize = 0;
        while i < self.signers.len()
            invariant
                i <= self.signers.len(),
                forall|j: int| 0 <= j < i ==> self.signers@[j] != *who,
            decreases self.signers.len() - i,
        {
            if same_address(&self.signers[i], who) {
                assert(self.signers@.contains(*who));
                return true;
            }
            i += 1;
        }
        assert(!self.signers@.contains(*who));
        false
    }
}

} // verus!
