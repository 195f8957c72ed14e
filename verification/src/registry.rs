use vstd::prelude::*;

use crate::Attributes;

verus! {

/// Capability flags declared for the collection at issuance.
#[derive(Clone, Copy, Debug, PartialEq, Eq, Structural)]
pub struct CollectionProperties {
    pub can_freeze: bool,
    pub can_wipe: bool,
    pub can_pause: bool,
    pub can_transfer_create_role: bool,
    pub can_change_owner: bool,
    pub can_upgrade: bool,
    pub can_add_special_roles: bool,
}

/// The asynchronous issuance request handed to the registry: the forwarded
/// native payment, the collection's fixed name and ticker, and the declared
/// capability set.
#[derive(Clone, Debug, PartialEq)]
pub struct IssueRequest {
    pub payment: u128,
    pub name: String,
    pub ticker: String,
    pub properties: CollectionProperties,
}

/// What the registry hands back on a failed issuance: the residual payment it
/// did not consume, and whether that residual is the native currency.
#[derive(Clone, Copy, Debug, PartialEq, Eq, Structural)]
pub struct ReturnedPayment {
    pub is_native: bool,
    pub amount: u128,
}

/// The registry's answer delivered to the issuance continuation.
#[derive(Clone, Copy, Debug, PartialEq, Eq, Structural)]
pub enum IssueOutcome {
    /// The registry created the collection under this identifier.
    Success(u64),
    /// The registry refused; it returns any payment it did not consume.
    Failure(ReturnedPayment),
}

/// A transfer of native currency owed after a failed issuance.
#[derive(Clone, Copy, Debug, PartialEq, Eq, Structural)]
pub struct Refund {
    pub to: u64,
    pub amount: u128,
}

/// Registry-level capabilities the contract can ask to attach to an address.
#[derive(Clone, Copy, Debug, PartialEq, Eq, Structural)]
pub enum LocalRole {
    NftCreate,
    NftBurn,
    NftUpdateAttributes,
    NftAddUri,
}

/// The asynchronous request to attach one capability to one address under the
/// issued collection.
#[derive(Clone, Copy, Debug, PartialEq, Eq, Structural)]
pub struct RoleRequest {
    pub collection: u64,
    pub target: u64,
    pub role: LocalRole,
}

/// The three lifecycle operations on an issued instance.
#[derive(Clone, Copy, Debug, PartialEq, Eq, Structural)]
pub enum LifecycleKind {
    Freeze,
    Unfreeze,
    Wipe,
}

/// The asynchronous request to freeze, unfreeze or wipe one instance held by
/// one address.
#[derive(Clone, Copy, Debug, PartialEq, Eq, Structural)]
pub struct LifecycleRequest {
    pub collection: u64,
    pub kind: LifecycleKind,
    pub nonce: u64,
    pub holder: u64,
}

/// The mint request handed to the registry: one unit of a new instance under
/// the issued collection, with the composed attributes, the fixed display
/// name, the fixed royalty and the tier's metadata location.
#[derive(Clone, Debug, PartialEq)]
pub struct MintRequest {
    pub collection: u64,
    pub quantity: u64,
    pub name: String,
    pub royalty: u64,
    pub duration: u64,
    pub attributes: Attributes,
    pub uri: String,
}

/// A complete mint: the registry request, then delivery of the one minted
/// unit to the recipient.
#[derive(Clone, Debug, PartialEq)]
pub struct MintAction {
    pub request: MintRequest,
    pub recipient: u64,
}

/// A read of one instance's attributes from the registry's books.
#[derive(Clone, Copy, Debug, PartialEq, Eq, Structural)]
pub struct InstanceQuery {
    pub collection: u64,
    pub nonce: u64,
}

} // verus!
