use vstd::prelude::*;

use crate::state;
use crate::state::ContractError;
use crate::state::StateView;

verus! {

/// The authorization primitive gating every mutating entry point: a
/// distinguished owner, fixed at creation, plus a whitelist of admin
/// addresses that only the owner may change.
pub trait AdminModule: Sized {
    /// Mathematical model of the whole contract state.
    spec fn model(&self) -> StateView;

    /// Internal well-formedness of the representation.
    spec fn wf(&self) -> bool;

    /// Owner-only, idempotent addition to the admin whitelist.
    fn add_to_admin_list(&mut self, caller: u64, address: u64) -> (r: Result<(), ContractError>)
        requires
            old(self).wf(),
        ensures
            final(self).wf(),
            r is Ok <==> state::owner_check(old(self).model(), caller) is None,
            r is Ok ==> final(self).model() == (StateView {
                admins: old(self).model().admins.insert(address),
                ..old(self).model()
            }),
            r is Err ==> r->Err_0 == ContractError::Unauthorized
                && final(self).model() == old(self).model(),
    ;

    /// Owner-only, idempotent removal from the admin whitelist.
    fn remove_from_admin_list(&mut self, caller: u64, address: u64) -> (r: Result<
        (),
        ContractError,
    >)
        requires
            old(self).wf(),
        ensures
            final(self).wf(),
            r is Ok <==> state::owner_check(old(self).model(), caller) is None,
            r is Ok ==> final(self).model() == (StateView {
                admins: old(self).model().admins.remove(address),
                ..old(self).model()
            }),
            r is Err ==> r->Err_0 == ContractError::Unauthorized
                && final(self).model() == old(self).model(),
    ;

    /// The guard every admin-gated entry point runs first: the owner passes,
    /// a whitelisted admin passes, anyone else is refused.
    fn require_caller_is_admin(&self, caller: u64) -> (r: Result<(), ContractError>)
        ensures
            r is Ok <==> state::is_authorized(self.model(), caller),
            r is Err ==> r->Err_0 == ContractError::Unauthorized,
    ;

    /// The whitelist as stored, without duplicates.
    fn admin_list(&self) -> (r: &Vec<u64>)
        requires
            self.wf(),
        ensures
            r@.no_duplicates(),
            r@.to_set() == self.model().admins,
    ;
}

} // verus!
