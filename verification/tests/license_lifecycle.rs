use mx_contracts_rs::AdminModule;
use mx_contracts_rs::ContractError;
use mx_contracts_rs::ContractState;
use mx_contracts_rs::InstanceQuery;
use mx_contracts_rs::IssueOutcome;
use mx_contracts_rs::LifecycleKind;
use mx_contracts_rs::LifecycleRequest;
use mx_contracts_rs::LocalRole;
use mx_contracts_rs::MxContractsRs;
use mx_contracts_rs::Refund;
use mx_contracts_rs::ReturnedPayment;
use mx_contracts_rs::RoleRequest;

const OWNER: u64 = 7;
const ADMIN: u64 = 42;
const STRANGER: u64 = 99;
const RECIPIENT: u64 = 100;
const TOKEN: u64 = 9;
const ONE_EGLD: u128 = 1_000_000_000_000_000_000;

/// A contract with ADMIN whitelisted and the collection issued under TOKEN.
fn issued_contract() -> ContractState {
    let mut c = ContractState::init(OWNER);
    c.add_to_admin_list(OWNER, ADMIN).unwrap();
    c.issue_collection(ADMIN, ONE_EGLD).unwrap();
    let refund = c.issue_callback(IssueOutcome::Success(TOKEN));
    assert_eq!(refund, None);
    c
}

#[test]
fn issue_request_carries_payment_name_ticker_and_flags() {
    let c = ContractState::init(OWNER);
    let q = c.issue_collection(OWNER, ONE_EGLD).unwrap();
    assert_eq!(q.payment, ONE_EGLD);
    assert_eq!(q.name, "Licenses");
    assert_eq!(q.ticker, "RRL");
    assert!(q.properties.can_freeze);
    assert!(q.properties.can_wipe);
    assert!(q.properties.can_pause);
    assert!(q.properties.can_transfer_create_role);
    assert!(q.properties.can_change_owner);
    assert!(q.properties.can_upgrade);
    assert!(q.properties.can_add_special_roles);
}

#[test]
fn issue_succeeds_at_most_once() {
    let mut c = issued_contract();
    assert_eq!(c.token_id(), Some(TOKEN));
    assert_eq!(
        c.issue_collection(OWNER, ONE_EGLD),
        Err(ContractError::AlreadyIssued)
    );
    assert_eq!(
        c.issue_collection(ADMIN, 1),
        Err(ContractError::AlreadyIssued)
    );
}

#[test]
fn failed_issuance_refunds_native_residual_to_owner() {
    let mut c = ContractState::init(OWNER);
    c.add_to_admin_list(OWNER, ADMIN).unwrap();
    c.issue_collection(ADMIN, ONE_EGLD).unwrap();
    // the registry kept a fee; the residual goes back to the owner, not ADMIN
    let residual = ONE_EGLD - 50_000;
    let refund = c.issue_callback(IssueOutcome::Failure(ReturnedPayment {
        is_native: true,
        amount: residual,
    }));
    assert_eq!(
        refund,
        Some(Refund {
            to: OWNER,
            amount: residual
        })
    );
    // the identifier stays unset, so issuance can be retried
    assert_eq!(c.token_id(), None);
    assert!(c.issue_collection(ADMIN, ONE_EGLD).is_ok());
}

#[test]
fn failed_issuance_with_no_native_residual_refunds_nothing() {
    let mut c = ContractState::init(OWNER);
    c.issue_collection(OWNER, ONE_EGLD).unwrap();
    let refund = c.issue_callback(IssueOutcome::Failure(ReturnedPayment {
        is_native: false,
        amount: 1,
    }));
    assert_eq!(refund, None);
    let mut c = ContractState::init(OWNER);
    c.issue_collection(OWNER, ONE_EGLD).unwrap();
    let refund = c.issue_callback(IssueOutcome::Failure(ReturnedPayment {
        is_native: true,
        amount: 0,
    }));
    assert_eq!(refund, None);
    assert_eq!(c.token_id(), None);
}

#[test]
fn template_overwrite_keeps_only_second_value() {
    let mut c = ContractState::init(OWNER);
    assert_eq!(c.fixed_attributes(3), None);
    c.set_fixed_attributes(OWNER, 3, 1, 2, 3, 100).unwrap();
    c.set_fixed_attributes(OWNER, 3, 9, 8, 7, 300).unwrap();
    let t = c.fixed_attributes(3).unwrap();
    assert_eq!(t.boosts, 9);
    assert_eq!(t.huds, 8);
    assert_eq!(t.sounds, 7);
    assert_eq!(t.max_rpm, 300);
    // the other tiers stay untouched
    assert_eq!(c.fixed_attributes(2), None);
}

#[test]
fn mint_composes_template_and_dynamic_fields() {
    let mut c = issued_contract();
    c.set_fixed_attributes(ADMIN, 2, 5, 1, 0, 200).unwrap();
    let a = c
        .mint_license(ADMIN, RECIPIENT, 2, 30, 80, true, false)
        .unwrap();
    assert_eq!(a.recipient, RECIPIENT);
    assert_eq!(a.request.collection, TOKEN);
    assert_eq!(a.request.quantity, 1);
    assert_eq!(a.request.name, "Remotis Racing License");
    assert_eq!(a.request.royalty, 1000);
    assert_eq!(a.request.duration, 30);
    assert_eq!(
        a.request.uri,
        "https://ipfs.io/ipfs/QmSRkhriLVWBLATWC946JXYdy2zX1jSSNAce4zRanTBdqY"
    );
    let attrs = a.request.attributes;
    assert_eq!(attrs.boosts, 5);
    assert_eq!(attrs.huds, 1);
    assert_eq!(attrs.sounds, 0);
    assert_eq!(attrs.races_won, 0);
    assert_eq!(attrs.max_rpm, 200);
    assert_eq!(attrs.battery, 80);
    assert_eq!(attrs.license_type, "Remotis Specialist License");
    assert!(attrs.renewable);
    assert!(!attrs.rechargeable);
}

#[test]
fn mint_labels_each_tier() {
    let mut c = issued_contract();
    for tier in 1u8..=4 {
        c.set_fixed_attributes(ADMIN, tier, 1, 1, 1, 100).unwrap();
    }
    let label = |tier: u8| {
        c.mint_license(ADMIN, RECIPIENT, tier, 1, 1, false, false)
            .unwrap()
            .request
            .attributes
            .license_type
    };
    assert_eq!(label(1), "Remotis Amateur License");
    assert_eq!(label(2), "Remotis Specialist License");
    assert_eq!(label(3), "Remotis Expert License");
    assert_eq!(label(4), "Remotis Legend License");
}

#[test]
fn mint_without_template_fails() {
    let mut c = issued_contract();
    assert_eq!(
        c.mint_license(ADMIN, RECIPIENT, 3, 30, 80, true, false),
        Err(ContractError::TemplateMissing)
    );
}

#[test]
fn mint_outside_closed_tier_mapping_fails() {
    let mut c = issued_contract();
    // a template stored under the key does not make the tier valid
    c.set_fixed_attributes(ADMIN, 7, 1, 1, 1, 100).unwrap();
    assert_eq!(
        c.mint_license(ADMIN, RECIPIENT, 7, 30, 80, true, false),
        Err(ContractError::InvalidTier)
    );
    c.set_fixed_attributes(ADMIN, 0, 1, 1, 1, 100).unwrap();
    assert_eq!(
        c.mint_license(ADMIN, RECIPIENT, 0, 30, 80, true, false),
        Err(ContractError::InvalidTier)
    );
}

#[test]
fn mint_before_issuance_fails() {
    let mut c = ContractState::init(OWNER);
    c.set_fixed_attributes(OWNER, 2, 5, 1, 0, 200).unwrap();
    assert_eq!(
        c.mint_license(OWNER, RECIPIENT, 2, 30, 80, true, false),
        Err(ContractError::CollectionNotIssued)
    );
}

#[test]
fn role_grants_name_collection_target_and_role() {
    let c = issued_contract();
    assert_eq!(
        c.set_local_roles(ADMIN, 1000),
        Ok(RoleRequest {
            collection: TOKEN,
            target: 1000,
            role: LocalRole::NftCreate
        })
    );
    assert_eq!(
        c.set_update_attributes_role_to(ADMIN, 200),
        Ok(RoleRequest {
            collection: TOKEN,
            target: 200,
            role: LocalRole::NftUpdateAttributes
        })
    );
    assert_eq!(
        c.set_mint_role_to(ADMIN, 201),
        Ok(RoleRequest {
            collection: TOKEN,
            target: 201,
            role: LocalRole::NftCreate
        })
    );
    assert_eq!(
        c.set_burn_role_to(ADMIN, 202),
        Ok(RoleRequest {
            collection: TOKEN,
            target: 202,
            role: LocalRole::NftBurn
        })
    );
    assert_eq!(
        c.set_add_uris_role_to(ADMIN, 203),
        Ok(RoleRequest {
            collection: TOKEN,
            target: 203,
            role: LocalRole::NftAddUri
        })
    );
}

#[test]
fn role_grants_before_issuance_fail() {
    let c = ContractState::init(OWNER);
    assert_eq!(
        c.set_update_attributes_role_to(OWNER, 200),
        Err(ContractError::CollectionNotIssued)
    );
    assert_eq!(
        c.set_local_roles(OWNER, 1000),
        Err(ContractError::CollectionNotIssued)
    );
}

#[test]
fn lifecycle_requests_name_instance_and_holder() {
    let c = issued_contract();
    assert_eq!(
        c.freeze_license(ADMIN, 5, RECIPIENT),
        Ok(LifecycleRequest {
            collection: TOKEN,
            kind: LifecycleKind::Freeze,
            nonce: 5,
            holder: RECIPIENT
        })
    );
    assert_eq!(
        c.unfreeze_license(ADMIN, 5, RECIPIENT),
        Ok(LifecycleRequest {
            collection: TOKEN,
            kind: LifecycleKind::Unfreeze,
            nonce: 5,
            holder: RECIPIENT
        })
    );
    assert_eq!(
        c.wipe_license(OWNER, 6, RECIPIENT),
        Ok(LifecycleRequest {
            collection: TOKEN,
            kind: LifecycleKind::Wipe,
            nonce: 6,
            holder: RECIPIENT
        })
    );
    let c = ContractState::init(OWNER);
    assert_eq!(
        c.freeze_license(OWNER, 5, RECIPIENT),
        Err(ContractError::CollectionNotIssued)
    );
}

#[test]
fn get_attributes_names_the_issued_instance() {
    let c = issued_contract();
    assert_eq!(
        c.get_attributes(5),
        Ok(InstanceQuery {
            collection: TOKEN,
            nonce: 5
        })
    );
    let c = ContractState::init(OWNER);
    assert_eq!(c.get_attributes(5), Err(ContractError::CollectionNotIssued));
}

#[test]
fn strangers_are_refused_everywhere_with_no_state_change() {
    let mut c = issued_contract();
    c.set_fixed_attributes(ADMIN, 2, 5, 1, 0, 200).unwrap();
    assert_eq!(
        c.issue_collection(STRANGER, 1),
        Err(ContractError::Unauthorized)
    );
    assert_eq!(
        c.set_fixed_attributes(STRANGER, 2, 0, 0, 0, 0),
        Err(ContractError::Unauthorized)
    );
    assert_eq!(
        c.mint_license(STRANGER, RECIPIENT, 2, 30, 80, true, false),
        Err(ContractError::Unauthorized)
    );
    assert_eq!(
        c.freeze_license(STRANGER, 5, RECIPIENT),
        Err(ContractError::Unauthorized)
    );
    assert_eq!(
        c.unfreeze_license(STRANGER, 5, RECIPIENT),
        Err(ContractError::Unauthorized)
    );
    assert_eq!(
        c.wipe_license(STRANGER, 5, RECIPIENT),
        Err(ContractError::Unauthorized)
    );
    assert_eq!(
        c.set_local_roles(STRANGER, 1000),
        Err(ContractError::Unauthorized)
    );
    assert_eq!(
        c.set_update_attributes_role_to(STRANGER, 200),
        Err(ContractError::Unauthorized)
    );
    assert_eq!(
        c.set_mint_role_to(STRANGER, 200),
        Err(ContractError::Unauthorized)
    );
    assert_eq!(
        c.set_burn_role_to(STRANGER, 200),
        Err(ContractError::Unauthorized)
    );
    assert_eq!(
        c.set_add_uris_role_to(STRANGER, 200),
        Err(ContractError::Unauthorized)
    );
    // nothing changed
    let t = c.fixed_attributes(2).unwrap();
    assert_eq!((t.boosts, t.huds, t.sounds, t.max_rpm), (5, 1, 0, 200));
    assert_eq!(c.token_id(), Some(TOKEN));
    assert_eq!(c.admin_list(), &vec![ADMIN]);
}
