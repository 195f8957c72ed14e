use vstd::prelude::*;

use crate::registry::Refund;
use crate::registry::ReturnedPayment;
use crate::FixedAttributes;

verus! {

/// The reasons an entry point refuses to act, with no state change.
#[derive(Clone, Copy, Debug, PartialEq, Eq, Structural)]
pub enum ContractError {
    /// The caller is neither the owner nor a whitelisted admin.
    Unauthorized,
    /// The collection identifier is already set.
    AlreadyIssued,
    /// The collection identifier is not set yet.
    CollectionNotIssued,
    /// No template is stored for the requested tier.
    TemplateMissing,
    /// The tier is outside the closed label mapping.
    InvalidTier,
}

/// Mathematical model of the contract's persistent state: the owner set at
/// creation, the admin whitelist, the one-shot collection identifier and the
/// per-tier attribute templates.
#[verifier::ext_equal]
pub ghost struct StateView {
    pub owner: u64,
    pub admins: Set<u64>,
    pub token: Option<u64>,
    pub templates: Map<u8, FixedAttributes>,
}

/// The owner passes every whitelist check; everyone else must be whitelisted.
pub open spec fn is_authorized(v: StateView, caller: u64) -> bool {
    caller == v.owner || v.admins.contains(caller)
}

/// Guard of the owner-only admin-list mutations.
pub open spec fn owner_check(v: StateView, caller: u64) -> Option<ContractError> {
    if caller == v.owner {
        None
    } else {
        Some(ContractError::Unauthorized)
    }
}

/// Guard of issuance: admin caller, identifier still unset.
pub open spec fn issue_check(v: StateView, caller: u64) -> Option<ContractError> {
    if !is_authorized(v, caller) {
        Some(ContractError::Unauthorized)
    } else if v.token is Some {
        Some(ContractError::AlreadyIssued)
    } else {
        None
    }
}

/// Guard of every registry-facing operation after issuance: admin caller,
/// identifier set. Role grants and lifecycle operations share it.
pub open spec fn issued_admin_check(v: StateView, caller: u64) -> Option<ContractError> {
    if !is_authorized(v, caller) {
        Some(ContractError::Unauthorized)
    } else if v.token is None {
        Some(ContractError::CollectionNotIssued)
    } else {
        None
    }
}

/// The four tiers of the closed label mapping.
pub open spec fn valid_tier(tier: u8) -> bool {
    1 <= tier <= 4
}

/// Guard of minting, checked in this order: admin caller, identifier set,
/// template stored for the tier, tier inside the closed mapping.
pub open spec fn mint_check(v: StateView, caller: u64, tier: u8) -> Option<ContractError> {
    if !is_authorized(v, caller) {
        Some(ContractError::Unauthorized)
    } else if v.token is None {
        Some(ContractError::CollectionNotIssued)
    } else if !v.templates.contains_key(tier) {
        Some(ContractError::TemplateMissing)
    } else if !valid_tier(tier) {
        Some(ContractError::InvalidTier)
    } else {
        None
    }
}

/// What a failed issuance owes: the residual payment goes back to the owner
/// when it is the native currency and positive; any other residual is kept.
pub open spec fn refund_of(owner: u64, returned: ReturnedPayment) -> Option<Refund> {
    if returned.is_native && returned.amount > 0 {
        Some(Refund { to: owner, amount: returned.amount })
    } else {
        None
    }
}

/// The fixed human-readable label of each tier.
pub open spec fn license_label(tier: u8) -> Seq<char> {
    if tier == 1 {
        "Remotis Amateur License"@
    } else if tier == 2 {
        "Remotis Specialist License"@
    } else if tier == 3 {
        "Remotis Expert License"@
    } else if tier == 4 {
        "Remotis Legend License"@
    } else {
        Seq::empty()
    }
}

/// The fixed metadata location of each tier.
pub open spec fn license_uri(tier: u8) -> Seq<char> {
    if tier == 1 {
        "https://ipfs.io/ipfs/QmaSBad87GFUaLXi1FjgkiqRyQ3Fbc5GENNtzEdKYro3y4"@
    } else if tier == 2 {
        "https://ipfs.io/ipfs/QmSRkhriLVWBLATWC946JXYdy2zX1jSSNAce4zRanTBdqY"@
    } else if tier == 3 {
        "https://ipfs.io/ipfs/QmbAEp9VFGV82UiL1LMrki46fZ5nD7AEpr7L5NzYNz1nEw"@
    } else if tier == 4 {
        "https://ipfs.io/ipfs/QmZR4sKhySN2nYftJu7hCCJ9UteXgNDuZhTDyXEfaZFimY"@
    } else {
        Seq::empty()
    }
}

} // verus!
