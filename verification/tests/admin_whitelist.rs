use mx_contracts_rs::AdminModule;
use mx_contracts_rs::ContractError;
use mx_contracts_rs::ContractState;
use mx_contracts_rs::MxContractsRs;

const OWNER: u64 = 7;
const ALICE: u64 = 42;
const BOB: u64 = 43;
const STRANGER: u64 = 99;

#[test]
fn add_remove_net_effect() {
    let mut c = ContractState::init(OWNER);
    assert_eq!(c.add_to_admin_list(OWNER, ALICE), Ok(()));
    assert_eq!(c.add_to_admin_list(OWNER, BOB), Ok(()));
    // adding twice is idempotent
    assert_eq!(c.add_to_admin_list(OWNER, ALICE), Ok(()));
    assert_eq!(c.admin_list().len(), 2);
    assert_eq!(c.remove_from_admin_list(OWNER, ALICE), Ok(()));
    assert_eq!(c.admin_list(), &vec![BOB]);
    // removing twice is idempotent
    assert_eq!(c.remove_from_admin_list(OWNER, ALICE), Ok(()));
    assert_eq!(c.admin_list(), &vec![BOB]);
    // add back after removal
    assert_eq!(c.add_to_admin_list(OWNER, ALICE), Ok(()));
    assert!(c.admin_list().contains(&ALICE));
    assert!(c.admin_list().contains(&BOB));
}

#[test]
fn non_owner_cannot_change_whitelist() {
    let mut c = ContractState::init(OWNER);
    assert_eq!(c.add_to_admin_list(OWNER, ALICE), Ok(()));
    // even an admin may not touch the whitelist
    assert_eq!(
        c.add_to_admin_list(ALICE, BOB),
        Err(ContractError::Unauthorized)
    );
    assert_eq!(
        c.remove_from_admin_list(ALICE, ALICE),
        Err(ContractError::Unauthorized)
    );
    assert_eq!(
        c.add_to_admin_list(STRANGER, STRANGER),
        Err(ContractError::Unauthorized)
    );
    assert_eq!(c.admin_list(), &vec![ALICE]);
}

#[test]
fn owner_passes_guard_without_being_listed() {
    let c = ContractState::init(OWNER);
    assert_eq!(c.require_caller_is_admin(OWNER), Ok(()));
    assert_eq!(
        c.require_caller_is_admin(STRANGER),
        Err(ContractError::Unauthorized)
    );
}

#[test]
fn whitelisted_admin_passes_guard_until_removed() {
    let mut c = ContractState::init(OWNER);
    assert_eq!(
        c.require_caller_is_admin(ALICE),
        Err(ContractError::Unauthorized)
    );
    assert_eq!(c.add_to_admin_list(OWNER, ALICE), Ok(()));
    assert_eq!(c.require_caller_is_admin(ALICE), Ok(()));
    assert_eq!(c.remove_from_admin_list(OWNER, ALICE), Ok(()));
    assert_eq!(
        c.require_caller_is_admin(ALICE),
        Err(ContractError::Unauthorized)
    );
}
