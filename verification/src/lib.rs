use vstd::prelude::*;

mod admin;
pub mod laws;
mod registry;
mod state;

pub use admin::AdminModule;
pub use registry::CollectionProperties;
pub use registry::InstanceQuery;
pub use registry::IssueOutcome;
pub use registry::IssueRequest;
pub use registry::LifecycleKind;
pub use registry::LifecycleRequest;
pub use registry::LocalRole;
pub use registry::MintAction;
pub use registry::MintRequest;
pub use registry::Refund;
pub use registry::ReturnedPayment;
pub use registry::RoleRequest;
pub use state::ContractError;
pub use state::StateView;

verus! {

/// The immutable per-tier template an admin stores before minting for that
/// tier becomes possible.
#[derive(Clone, Copy, Debug, PartialEq, Eq, Structural)]
pub struct FixedAttributes {
    pub boosts: u64,
    pub huds: u64,
    pub sounds: u64,
    pub max_rpm: u64,
}

/// The attribute record carried by one minted license instance: the tier's
/// template values, the caller-supplied dynamic fields, and a race counter
/// that always starts at zero.
#[derive(Clone, Debug, PartialEq)]
pub struct Attributes {
    pub boosts: u64,
    pub huds: u64,
    pub sounds: u64,
    pub races_won: u64,
    pub max_rpm: u64,
    pub battery: u64,
    pub license_type: String,
    pub renewable: bool,
    pub rechargeable: bool,
}

/// Mathematical image of an [`Attributes`] record, the label as a sequence
/// of characters.
#[verifier::ext_equal]
pub ghost struct AttributesView {
    pub boosts: u64,
    pub huds: u64,
    pub sounds: u64,
    pub races_won: u64,
    pub max_rpm: u64,
    pub battery: u64,
    pub license_type: Seq<char>,
    pub renewable: bool,
    pub rechargeable: bool,
}

impl View for Attributes {
    type V = AttributesView;

    open spec fn view(&self) -> AttributesView {
        AttributesView {
            boosts: self.boosts,
            huds: self.huds,
            sounds: self.sounds,
            races_won: self.races_won,
            max_rpm: self.max_rpm,
            battery: self.battery,
            license_type: self.license_type@,
            renewable: self.renewable,
            rechargeable: self.rechargeable,
        }
    }
}

/// The record minting composes: the stored template's values, races_won
/// fixed at zero, the tier's label, and the caller-supplied dynamic fields.
pub open spec fn compose_attributes(
    template: FixedAttributes,
    tier: u8,
    battery: u64,
    renewable: bool,
    rechargeable: bool,
) -> AttributesView {
    AttributesView {
        boosts: template.boosts,
        huds: template.huds,
        sounds: template.sounds,
        races_won: 0,
        max_rpm: template.max_rpm,
        battery: battery,
        license_type: state::license_label(tier),
        renewable: renewable,
        rechargeable: rechargeable,
    }
}

/// The license lifecycle state machine: one-shot asynchronous collection
/// issuance, per-tier templates, tier-templated minting, and registry-facing
/// role and lifecycle requests, all gated by the admin whitelist. Methods
/// that suspend on the registry return the request they hand it; the host
/// performs the request and, for issuance, feeds the outcome back through
/// [`MxContractsRs::issue_callback`].
pub trait MxContractsRs: AdminModule {
    /// Creation: fixes the owner; everything else starts empty.
    fn init(owner: u64) -> (s: Self)
        ensures
            s.wf(),
            s.model() == (StateView {
                owner: owner,
                admins: Set::<u64>::empty(),
                token: None,
                templates: Map::<u8, FixedAttributes>::empty(),
            }),
    ;

    /// Requests creation of the collection, forwarding the caller's native
    /// payment. State is untouched until the continuation resolves.
    fn issue_collection(&self, caller: u64, payment: u128) -> (r: Result<
        IssueRequest,
        ContractError,
    >)
        ensures
            r is Ok <==> state::issue_check(self.model(), caller) is None,
            r is Err ==> Some(r->Err_0) == state::issue_check(self.model(), caller),
            r is Ok ==> ({
                let q = r->Ok_0;
                &&& q.payment == payment
                &&& q.name@ == "Licenses"@
                &&& q.ticker@ == "RRL"@
                &&& q.properties == (CollectionProperties {
                    can_freeze: true,
                    can_wipe: true,
                    can_pause: true,
                    can_transfer_create_role: true,
                    can_change_owner: true,
                    can_upgrade: true,
                    can_add_special_roles: true,
                })
            }),
    ;

    /// The issuance continuation. On success the identifier is set, once and
    /// for all; on failure the state stays as it was and the residual native
    /// payment is owed to the owner. The host delivers the outcome exactly
    /// once, for a request that found the identifier unset.
    fn issue_callback(&mut self, outcome: IssueOutcome) -> (refund: Option<Refund>)
        requires
            old(self).wf(),
            old(self).model().token is None,
        ensures
            final(self).wf(),
            outcome matches IssueOutcome::Success(token) ==> refund is None && final(self).model()
                == (StateView { token: Some(token), ..old(self).model() }),
            outcome matches IssueOutcome::Failure(returned) ==> final(self).model() == old(
                self,
            ).model() && refund == state::refund_of(old(self).model().owner, returned),
    ;

    /// Requests the instance-creation capability for the contract's own
    /// account, so that it can mint.
    fn set_local_roles(&self, caller: u64, sc_address: u64) -> (r: Result<
        RoleRequest,
        ContractError,
    >)
        ensures
            r is Ok <==> state::issued_admin_check(self.model(), caller) is None,
            r is Err ==> Some(r->Err_0) == state::issued_admin_check(self.model(), caller),
            r is Ok ==> r->Ok_0 == (RoleRequest {
                collection: self.model().token->Some_0,
                target: sc_address,
                role: LocalRole::NftCreate,
            }),
    ;

    /// Stores the template for a tier, overwriting any earlier one wholesale.
    fn set_fixed_attributes(
        &mut self,
        caller: u64,
        license_type: u8,
        boosts: u64,
        huds: u64,
        sounds: u64,
        max_rpm: u64,
    ) -> (r: Result<(), ContractError>)
        requires
            old(self).wf(),
        ensures
            final(self).wf(),
            r is Ok <==> state::is_authorized(old(self).model(), caller),
            r is Err ==> r->Err_0 == ContractError::Unauthorized && final(self).model() == old(
                self,
            ).model(),
            r is Ok ==> final(self).model() == (StateView {
                templates: old(self).model().templates.insert(
                    license_type,
                    FixedAttributes { boosts, huds, sounds, max_rpm },
                ),
                ..old(self).model()
            }),
    ;

    /// Composes the tier's template with the caller-supplied dynamic fields
    /// into one instance — races_won fixed at zero — and returns the mint
    /// request together with the delivery of its one unit to the recipient.
    fn mint_license(
        &self,
        caller: u64,
        recipient: u64,
        license: u8,
        duration: u64,
        battery: u64,
        renewable: bool,
        rechargeable: bool,
    ) -> (r: Result<MintAction, ContractError>)
        requires
            self.wf(),
        ensures
            r is Ok <==> state::mint_check(self.model(), caller, license) is None,
            r is Err ==> Some(r->Err_0) == state::mint_check(self.model(), caller, license),
            r is Ok ==> ({
                let a = r->Ok_0;
                &&& a.recipient == recipient
                &&& a.request.collection == self.model().token->Some_0
                &&& a.request.quantity == 1
                &&& a.request.name@ == "Remotis Racing License"@
                &&& a.request.royalty == 1000
                &&& a.request.duration == duration
                &&& a.request.uri@ == state::license_uri(license)
                &&& a.request.attributes@ == compose_attributes(
                    self.model().templates[license],
                    license,
                    battery,
                    renewable,
                    rechargeable,
                )
            }),
    ;

    /// Requests that the registry freeze one instance held by one address.
    fn freeze_license(&self, caller: u64, nonce: u64, address: u64) -> (r: Result<
        LifecycleRequest,
        ContractError,
    >)
        ensures
            r is Ok <==> state::issued_admin_check(self.model(), caller) is None,
            r is Err ==> Some(r->Err_0) == state::issued_admin_check(self.model(), caller),
            r is Ok ==> r->Ok_0 == (LifecycleRequest {
                collection: self.model().token->Some_0,
                kind: LifecycleKind::Freeze,
                nonce: nonce,
                holder: address,
            }),
    ;

    /// Requests that the registry unfreeze one instance held by one address.
    fn unfreeze_license(&self, caller: u64, nonce: u64, address: u64) -> (r: Result<
        LifecycleRequest,
        ContractError,
    >)
        ensures
            r is Ok <==> state::issued_admin_check(self.model(), caller) is None,
            r is Err ==> Some(r->Err_0) == state::issued_admin_check(self.model(), caller),
            r is Ok ==> r->Ok_0 == (LifecycleRequest {
                collection: self.model().token->Some_0,
                kind: LifecycleKind::Unfreeze,
                nonce: nonce,
                holder: address,
            }),
    ;

    /// Requests that the registry wipe one instance held by one address.
    fn wipe_license(&self, caller: u64, nonce: u64, address: u64) -> (r: Result<
        LifecycleRequest,
        ContractError,
    >)
        ensures
            r is Ok <==> state::issued_admin_check(self.model(), caller) is None,
            r is Err ==> Some(r->Err_0) == state::issued_admin_check(self.model(), caller),
            r is Ok ==> r->Ok_0 == (LifecycleRequest {
                collection: self.model().token->Some_0,
                kind: LifecycleKind::Wipe,
                nonce: nonce,
                holder: address,
            }),
    ;

    /// Requests the attribute-update capability for an address.
    fn set_update_attributes_role_to(&self, caller: u64, address: u64) -> (r: Result<
        RoleRequest,
        ContractError,
    >)
        ensures
            r is Ok <==> state::issued_admin_check(self.model(), caller) is None,
            r is Err ==> Some(r->Err_0) == state::issued_admin_check(self.model(), caller),
            r is Ok ==> r->Ok_0 == (RoleRequest {
                collection: self.model().token->Some_0,
                target: address,
                role: LocalRole::NftUpdateAttributes,
            }),
    ;

    /// Requests the instance-creation capability for an address.
    fn set_mint_role_to(&self, caller: u64, address: u64) -> (r: Result<
        RoleRequest,
        ContractError,
    >)
        ensures
            r is Ok <==> state::issued_admin_check(self.model(), caller) is None,
            r is Err ==> Some(r->Err_0) == state::issued_admin_check(self.model(), caller),
            r is Ok ==> r->Ok_0 == (RoleRequest {
                collection: self.model().token->Some_0,
                target: address,
                role: LocalRole::NftCreate,
            }),
    ;

    /// Requests the burn capability for an address.
    fn set_burn_role_to(&self, caller: u64, address: u64) -> (r: Result<
        RoleRequest,
        ContractError,
    >)
        ensures
            r is Ok <==> state::issued_admin_check(self.model(), caller) is None,
            r is Err ==> Some(r->Err_0) == state::issued_admin_check(self.model(), caller),
            r is Ok ==> r->Ok_0 == (RoleRequest {
                collection: self.model().token->Some_0,
                target: address,
                role: LocalRole::NftBurn,
            }),
    ;

    /// Requests the add-metadata-URI capability for an address.
    fn set_add_uris_role_to(&self, caller: u64, address: u64) -> (r: Result<
        RoleRequest,
        ContractError,
    >)
        ensures
            r is Ok <==> state::issued_admin_check(self.model(), caller) is None,
            r is Err ==> Some(r->Err_0) == state::issued_admin_check(self.model(), caller),
            r is Ok ==> r->Ok_0 == (RoleRequest {
                collection: self.model().token->Some_0,
                target: address,
                role: LocalRole::NftAddUri,
            }),
    ;

    /// Names the instance whose attributes the registry should be asked for.
    /// The instances themselves live on the registry's books, never here.
    fn get_attributes(&self, nonce: u64) -> (r: Result<InstanceQuery, ContractError>)
        ensures
            r is Ok <==> self.model().token is Some,
            r is Ok ==> r->Ok_0 == (InstanceQuery {
                collection: self.model().token->Some_0,
                nonce: nonce,
            }),
            r is Err ==> r->Err_0 == ContractError::CollectionNotIssued,
    ;

    /// The collection identifier, or nothing before a successful issuance.
    fn token_id(&self) -> (r: Option<u64>)
        ensures
            r == self.model().token,
    ;

    /// The stored template for a tier, or nothing.
    fn fixed_attributes(&self, license_type: u8) -> (r: Option<FixedAttributes>)
        requires
            self.wf(),
        ensures
            r is Some <==> self.model().templates.contains_key(license_type),
            r is Some ==> r->Some_0 == self.model().templates[license_type],
    ;
}

/// The one implementation of the contract: owner, admin whitelist, the
/// one-shot collection identifier, and one template slot per tier key.
pub struct ContractState {
    owner: u64,
    admins: Vec<u64>,
    token: Option<u64>,
    templates: Vec<Option<FixedAttributes>>,
}

/// Whether a whitelist entry equals the given address, by linear search.
fn contains_u64(v: &Vec<u64>, x: u64) -> (r: bool)
    ensures
        r == v@.contains(x),
{
    let mut i: usize = 0;
    while i < v.len()
        invariant
            i <= v@.len(),
            forall|j: int| 0 <= j < i ==> v@[j] != x,
        decreases v@.len() - i,
    {
        if v[i] == x {
            return true;
        }
        i += 1;
    }
    false
}

/// The index of the first entry equal to the given address, if any.
fn index_of_u64(v: &Vec<u64>, x: u64) -> (r: Option<usize>)
    ensures
        r matches Some(i) ==> i < v@.len() && v@[i as int] == x,
        r is None ==> !v@.contains(x),
{
    let mut i: usize = 0;
    while i < v.len()
        invariant
            i <= v@.len(),
            forall|j: int| 0 <= j < i ==> v@[j] != x,
        decreases v@.len() - i,
    {
        if v[i] == x {
            return Some(i);
        }
        i += 1;
    }
    None
}

impl AdminModule for ContractState {
    closed spec fn model(&self) -> StateView {
        StateView {
            owner: self.owner,
            admins: self.admins@.to_set(),
            token: self.token,
            templates: Map::new(
                |tier: u8| self.templates@[tier as int] is Some,
                |tier: u8| self.templates@[tier as int]->Some_0,
            ),
        }
    }

    closed spec fn wf(&self) -> bool {
        self.templates@.len() == 256 && self.admins@.no_duplicates()
    }

    fn add_to_admin_list(&mut self, caller: u64, address: u64) -> (r: Result<(), ContractError>) {
        if caller != self.owner {
            return Err(ContractError::Unauthorized);
        }
        if !contains_u64(&self.admins, address) {
            self.admins.push(address);
            proof {
                let s = old(self).admins@;
                let t = self.admins@;
                assert forall|y: u64|
                    t.to_set().contains(y) == s.to_set().insert(address).contains(y) by {
                    if t.contains(y) {
                        let k = choose|k: int| 0 <= k < t.len() && t[k] == y;
                        if k < s.len() {
                            assert(s[k] == y);
                        }
                    }
                    if s.contains(y) {
                        let k = choose|k: int| 0 <= k < s.len() && s[k] == y;
                        assert(t[k] == y);
                    }
                    if y == address {
                        assert(t[t.len() - 1] == y);
                    }
                }
                assert(t.to_set() =~= s.to_set().insert(address));
                assert forall|p: int, q: int|
                    0 <= p < t.len() && 0 <= q < t.len() && p != q implies t[p] != t[q] by {
                    if p < s.len() && q < s.len() {
                        assert(s[p] != s[q]);
                    } else if p < s.len() {
                        assert(!s.contains(address));
                        assert(s[p] != address);
                    } else if q < s.len() {
                        assert(!s.contains(address));
                        assert(s[q] != address);
                    }
                }
                assert(self.model() =~~= (StateView {
                    admins: old(self).model().admins.insert(address),
                    ..old(self).model()
                }));
            }
        } else {
            proof {
                assert(self.admins@.to_set() =~= old(self).admins@.to_set().insert(address));
                assert(self.model() =~~= (StateView {
                    admins: old(self).model().admins.insert(address),
                    ..old(self).model()
                }));
            }
        }
        Ok(())
    }

    fn remove_from_admin_list(&mut self, caller: u64, address: u64) -> (r: Result<
        (),
        ContractError,
    >) {
        if caller != self.owner {
            return Err(ContractError::Unauthorized);
        }
        match index_of_u64(&self.admins, address) {
            Some(i) => {
                self.admins.remove(i);
                proof {
                    let s = old(self).admins@;
                    let t = self.admins@;
                    let d = i as int;
                    s.remove_ensures(d);
                    assert forall|y: u64|
                        t.to_set().contains(y) == s.to_set().remove(address).contains(y) by {
                        if t.contains(y) {
                            let k = choose|k: int| 0 <= k < t.len() && t[k] == y;
                            if k < d {
                                assert(s[k] == y);
                                assert(s[k] != s[d]);
                            } else {
                                assert(s[k + 1] == y);
                                assert(s[k + 1] != s[d]);
                            }
                        }
                        if s.contains(y) && y != address {
                            let k = choose|k: int| 0 <= k < s.len() && s[k] == y;
                            if k < d {
                                assert(t[k] == y);
                            } else {
                                assert(k != d);
                                assert(t[k - 1] == s[k]);
                            }
                        }
                    }
                    assert(t.to_set() =~= s.to_set().remove(address));
                    assert forall|p: int, q: int|
                        0 <= p < t.len() && 0 <= q < t.len() && p != q implies t[p] != t[q] by {
                        let p0: int = if p < d {
                            p
                        } else {
                            p + 1
                        };
                        let q0: int = if q < d {
                            q
                        } else {
                            q + 1
                        };
                        assert(t[p] == s[p0]);
                        assert(t[q] == s[q0]);
                        assert(s[p0] != s[q0]);
                    }
                    assert(self.model() =~~= (StateView {
                        admins: old(self).model().admins.remove(address),
                        ..old(self).model()
                    }));
                }
            },
            None => {
                proof {
                    assert(self.admins@.to_set() =~= old(self).admins@.to_set().remove(address));
                    assert(self.model() =~~= (StateView {
                        admins: old(self).model().admins.remove(address),
                        ..old(self).model()
                    }));
                }
            },
        }
        Ok(())
    }

    fn require_caller_is_admin(&self, caller: u64) -> (r: Result<(), ContractError>) {
        if caller == self.owner {
            return Ok(());
        }
        if contains_u64(&self.admins, caller) {
            Ok(())
        } else {
            Err(ContractError::Unauthorized)
        }
    }

    fn admin_list(&self) -> (r: &Vec<u64>) {
        &self.admins
    }
}

/// The fixed label of each of the four tiers.
fn license_label_exec(tier: u8) -> (s: String)
    requires
        state::valid_tier(tier),
    ensures
        s@ == state::license_label(tier),
{
    if tier == 1 {
        String::from_str("Remotis Amateur License")
    } else if tier == 2 {
        String::from_str("Remotis Specialist License")
    } else if tier == 3 {
        String::from_str("Remotis Expert License")
    } else {
        String::from_str("Remotis Legend License")
    }
}

/// The fixed metadata location of each of the four tiers.
fn license_uri_exec(tier: u8) -> (s: String)
    requires
        state::valid_tier(tier),
    ensures
        s@ == state::license_uri(tier),
{
    if tier == 1 {
        String::from_str("https://ipfs.io/ipfs/QmaSBad87GFUaLXi1FjgkiqRyQ3Fbc5GENNtzEdKYro3y4")
    } else if tier == 2 {
        String::from_str("https://ipfs.io/ipfs/QmSRkhriLVWBLATWC946JXYdy2zX1jSSNAce4zRanTBdqY")
    } else if tier == 3 {
        String::from_str("https://ipfs.io/ipfs/QmbAEp9VFGV82UiL1LMrki46fZ5nD7AEpr7L5NzYNz1nEw")
    } else {
        String::from_str("https://ipfs.io/ipfs/QmZR4sKhySN2nYftJu7hCCJ9UteXgNDuZhTDyXEfaZFimY")
    }
}

impl MxContractsRs for ContractState {
    fn init(owner: u64) -> (s: Self) {
        let mut templates: Vec<Option<FixedAttributes>> = Vec::new();
        let mut i: usize = 0;
        while i < 256
            invariant
                i <= 256,
                templates@.len() == i,
                forall|j: int| 0 <= j < i ==> templates@[j] is None,
            decreases 256 - i,
        {
            templates.push(None);
            i += 1;
        }
        let s = ContractState { owner, admins: Vec::new(), token: None, templates };
        proof {
            assert(s.model().admins =~= Set::<u64>::empty());
            assert(s.model().templates =~~= Map::<u8, FixedAttributes>::empty());
            assert(s.model() =~~= (StateView {
                owner: owner,
                admins: Set::<u64>::empty(),
                token: None,
                templates: Map::<u8, FixedAttributes>::empty(),
            }));
        }
        s
    }

    fn issue_collection(&self, caller: u64, payment: u128) -> (r: Result<
        IssueRequest,
        ContractError,
    >) {
        if let Err(e) = self.require_caller_is_admin(caller) {
            return Err(e);
        }
        if self.token.is_some() {
            return Err(ContractError::AlreadyIssued);
        }
        Ok(
            IssueRequest {
                payment,
                name: String::from_str("Licenses"),
                ticker: String::from_str("RRL"),
                properties: CollectionProperties {
                    can_freeze: true,
                    can_wipe: true,
                    can_pause: true,
                    can_transfer_create_role: true,
                    can_change_owner: true,
                    can_upgrade: true,
                    can_add_special_roles: true,
                },
            },
        )
    }

    fn issue_callback(&mut self, outcome: IssueOutcome) -> (refund: Option<Refund>) {
        match outcome {
            IssueOutcome::Success(token) => {
                self.token = Some(token);
                proof {
                    assert(self.model() =~~= (StateView {
                        token: Some(token),
                        ..old(self).model()
                    }));
                }
                None
            },
            IssueOutcome::Failure(returned) => {
                if returned.is_native && returned.amount > 0 {
                    Some(Refund { to: self.owner, amount: returned.amount })
                } else {
                    None
                }
            },
        }
    }

    fn set_local_roles(&self, caller: u64, sc_address: u64) -> (r: Result<
        RoleRequest,
        ContractError,
    >) {
        if let Err(e) = self.require_caller_is_admin(caller) {
            return Err(e);
        }
        match self.token {
            Some(collection) => Ok(
                RoleRequest { collection, target: sc_address, role: LocalRole::NftCreate },
            ),
            None => Err(ContractError::CollectionNotIssued),
        }
    }

    fn set_fixed_attributes(
        &mut self,
        caller: u64,
        license_type: u8,
        boosts: u64,
        huds: u64,
        sounds: u64,
        max_rpm: u64,
    ) -> (r: Result<(), ContractError>) {
        if let Err(e) = self.require_caller_is_admin(caller) {
            return Err(e);
        }
        let template = FixedAttributes { boosts, huds, sounds, max_rpm };
        self.templates[license_type as usize] = Some(template);
        proof {
            assert(self.model().templates =~~= old(self).model().templates.insert(
                license_type,
                template,
            ));
            assert(self.model() =~~= (StateView {
                templates: old(self).model().templates.insert(license_type, template),
                ..old(self).model()
            }));
        }
        Ok(())
    }

    fn mint_license(
        &self,
        caller: u64,
        recipient: u64,
        license: u8,
        duration: u64,
        battery: u64,
        renewable: bool,
        rechargeable: bool,
    ) -> (r: Result<MintAction, ContractError>) {
        if let Err(e) = self.require_caller_is_admin(caller) {
            return Err(e);
        }
        let collection = match self.token {
            Some(t) => t,
            None => {
                return Err(ContractError::CollectionNotIssued);
            },
        };
        let stored = match self.templates[license as usize] {
            Some(f) => f,
            None => {
                return Err(ContractError::TemplateMissing);
            },
        };
        if license < 1 || license > 4 {
            return Err(ContractError::InvalidTier);
        }
        let attributes = Attributes {
            boosts: stored.boosts,
            huds: stored.huds,
            sounds: stored.sounds,
            races_won: 0,
            max_rpm: stored.max_rpm,
            battery,
            license_type: license_label_exec(license),
            renewable,
            rechargeable,
        };
        proof {
            assert(self.model().templates.contains_key(license));
            assert(self.model().templates[license] == stored);
            assert(attributes@ =~~= compose_attributes(
                stored,
                license,
                battery,
                renewable,
                rechargeable,
            ));
        }
        Ok(
            MintAction {
                request: MintRequest {
                    collection,
                    quantity: 1,
                    name: String::from_str("Remotis Racing License"),
                    royalty: 1000,
                    duration,
                    attributes,
                    uri: license_uri_exec(license),
                },
                recipient,
            },
        )
    }

    fn freeze_license(&self, caller: u64, nonce: u64, address: u64) -> (r: Result<
        LifecycleRequest,
        ContractError,
    >) {
        if let Err(e) = self.require_caller_is_admin(caller) {
            return Err(e);
        }
        match self.token {
            Some(collection) => Ok(
                LifecycleRequest {
                    collection,
                    kind: LifecycleKind::Freeze,
                    nonce,
                    holder: address,
                },
            ),
            None => Err(ContractError::CollectionNotIssued),
        }
    }

    fn unfreeze_license(&self, caller: u64, nonce: u64, address: u64) -> (r: Result<
        LifecycleRequest,
        ContractError,
    >) {
        if let Err(e) = self.require_caller_is_admin(caller) {
            return Err(e);
        }
        match self.token {
            Some(collection) => Ok(
                LifecycleRequest {
                    collection,
                    kind: LifecycleKind::Unfreeze,
                    nonce,
                    holder: address,
                },
            ),
            None => Err(ContractError::CollectionNotIssued),
        }
    }

    fn wipe_license(&self, caller: u64, nonce: u64, address: u64) -> (r: Result<
        LifecycleRequest,
        ContractError,
    >) {
        if let Err(e) = self.require_caller_is_admin(caller) {
            return Err(e);
        }
        match self.token {
            Some(collection) => Ok(
                LifecycleRequest { collection, kind: LifecycleKind::Wipe, nonce, holder: address },
            ),
            None => Err(ContractError::CollectionNotIssued),
        }
    }

    fn set_update_attributes_role_to(&self, caller: u64, address: u64) -> (r: Result<
        RoleRequest,
        ContractError,
    >) {
        if let Err(e) = self.require_caller_is_admin(caller) {
            return Err(e);
        }
        match self.token {
            Some(collection) => Ok(
                RoleRequest { collection, target: address, role: LocalRole::NftUpdateAttributes },
            ),
            None => Err(ContractError::CollectionNotIssued),
        }
    }

    fn set_mint_role_to(&self, caller: u64, address: u64) -> (r: Result<
        RoleRequest,
        ContractError,
    >) {
        if let Err(e) = self.require_caller_is_admin(caller) {
            return Err(e);
        }
        match self.token {
            Some(collection) => Ok(
                RoleRequest { collection, target: address, role: LocalRole::NftCreate },
            ),
            None => Err(ContractError::CollectionNotIssued),
        }
    }

    fn set_burn_role_to(&self, caller: u64, address: u64) -> (r: Result<
        RoleRequest,
        ContractError,
    >) {
        if let Err(e) = self.require_caller_is_admin(caller) {
            return Err(e);
        }
        match self.token {
            Some(collection) => Ok(
                RoleRequest { collection, target: address, role: LocalRole::NftBurn },
            ),
            None => Err(ContractError::CollectionNotIssued),
        }
    }

    fn set_add_uris_role_to(&self, caller: u64, address: u64) -> (r: Result<
        RoleRequest,
        ContractError,
    >) {
        if let Err(e) = self.require_caller_is_admin(caller) {
            return Err(e);
        }
        match self.token {
            Some(collection) => Ok(
                RoleRequest { collection, target: address, role: LocalRole::NftAddUri },
            ),
            None => Err(ContractError::CollectionNotIssued),
        }
    }

    fn get_attributes(&self, nonce: u64) -> (r: Result<InstanceQuery, ContractError>) {
        match self.token {
            Some(collection) => Ok(InstanceQuery { collection, nonce }),
            None => Err(ContractError::CollectionNotIssued),
        }
    }

    fn token_id(&self) -> (r: Option<u64>) {
        self.token
    }

    fn fixed_attributes(&self, license_type: u8) -> (r: Option<FixedAttributes>) {
        self.templates[license_type as usize]
    }
}

} // verus!
