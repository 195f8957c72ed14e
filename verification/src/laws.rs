use vstd::prelude::*;

use crate::compose_attributes;
use crate::registry::ReturnedPayment;
use crate::state;
use crate::state::ContractError;
use crate::state::StateView;
use crate::FixedAttributes;

verus! {

/// Additions and removals act on the admin set exactly as set insertion and
/// removal, so any sequence of owner calls leaves precisely their net
/// effect: removing an address after adding it leaves the set without it,
/// and adding it back after removing it leaves the set with it.
pub proof fn lemma_admin_net_effect(admins: Set<u64>, address: u64)
    ensures
        admins.insert(address).remove(address) == admins.remove(address),
        admins.remove(address).insert(address) == admins.insert(address),
{
    assert(admins.insert(address).remove(address) =~= admins.remove(address));
    assert(admins.remove(address).insert(address) =~= admins.insert(address));
}

/// Issuance succeeds at most once: with the identifier set — as it stands
/// after a successful continuation — no further issuance passes the guard,
/// and an authorized caller is told the collection is already issued.
pub proof fn lemma_issue_at_most_once(v: StateView, caller: u64)
    requires
        v.token is Some,
    ensures
        state::issue_check(v, caller) is Some,
        state::is_authorized(v, caller) ==> state::issue_check(v, caller) == Some(
            ContractError::AlreadyIssued,
        ),
{
}

/// A tier outside the closed mapping is refused as an invalid tier even
/// when a template is stored under that key and everything else is in
/// order.
pub proof fn lemma_invalid_tier_rejected(v: StateView, caller: u64, tier: u8)
    requires
        !state::valid_tier(tier),
        state::is_authorized(v, caller),
        v.token is Some,
        v.templates.contains_key(tier),
    ensures
        state::mint_check(v, caller, tier) == Some(ContractError::InvalidTier),
{
}

/// Minting composes races_won at zero for every input; the template fields
/// of the delivered record come from the stored template alone, and the
/// dynamic fields from the caller alone.
pub proof fn lemma_mint_composition(
    template: FixedAttributes,
    tier: u8,
    battery: u64,
    renewable: bool,
    rechargeable: bool,
)
    ensures
        ({
            let a = compose_attributes(template, tier, battery, renewable, rechargeable);
            &&& a.races_won == 0
            &&& a.boosts == template.boosts
            &&& a.huds == template.huds
            &&& a.sounds == template.sounds
            &&& a.max_rpm == template.max_rpm
            &&& a.battery == battery
            &&& a.renewable == renewable
            &&& a.rechargeable == rechargeable
            &&& a.license_type == state::license_label(tier)
        }),
{
}

/// Storing a template twice for one tier is a total overwrite: only the
/// second value remains, for that tier and for every other one.
pub proof fn lemma_template_overwrite(
    templates: Map<u8, FixedAttributes>,
    tier: u8,
    first: FixedAttributes,
    second: FixedAttributes,
)
    ensures
        templates.insert(tier, first).insert(tier, second) == templates.insert(tier, second),
        templates.insert(tier, first).insert(tier, second)[tier] == second,
{
    assert(templates.insert(tier, first).insert(tier, second) =~= templates.insert(tier, second));
}

/// A caller that is neither the owner nor whitelisted is refused by every
/// admin-gated guard, whatever the rest of the state holds.
pub proof fn lemma_unauthorized_rejected(v: StateView, caller: u64)
    requires
        caller != v.owner,
        !v.admins.contains(caller),
    ensures
        state::owner_check(v, caller) == Some(ContractError::Unauthorized),
        state::issue_check(v, caller) == Some(ContractError::Unauthorized),
        state::issued_admin_check(v, caller) == Some(ContractError::Unauthorized),
        forall|tier: u8|
            state::mint_check(v, caller, tier) == Some(ContractError::Unauthorized),
{
}

/// Whatever a failed issuance returns, any refund goes to the owner — never
/// to the admin who invoked the issuance — and exactly the positive native
/// residual is refunded, nothing else.
pub proof fn lemma_refund_to_owner(owner: u64, returned: ReturnedPayment)
    ensures
        state::refund_of(owner, returned) matches Some(f) ==> f.to == owner && f.amount
            == returned.amount,
        state::refund_of(owner, returned) is Some <==> returned.is_native && returned.amount > 0,
{
}

} // verus!
