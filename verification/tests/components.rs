use job_board_token::{
    AccessController, Allowance, AuthProof, ExampleContractError, LedgerCore, PauseGate,
    UpgradeManager,
};

fn ledger() -> LedgerCore {
    LedgerCore::new(6, "Unit".to_owned(), "U".to_owned())
}

#[test]
fn error_codes_are_one_to_seven() {
    assert_eq!(ExampleContractError::Unauthorized.code(), 1);
    assert_eq!(ExampleContractError::ContractPaused.code(), 2);
    assert_eq!(ExampleContractError::InsufficientBalance.code(), 3);
    assert_eq!(ExampleContractError::InsufficientAllowance.code(), 4);
    assert_eq!(ExampleContractError::AllowanceExpired.code(), 5);
    assert_eq!(ExampleContractError::ArithmeticOverflow.code(), 6);
    assert_eq!(ExampleContractError::NotInitialized.code(), 7);
}

#[test]
fn auth_proof_confirms_exactly_what_was_proven() {
    assert!(!AuthProof::none().proves(1));
    assert!(AuthProof::of(1).proves(1));
    assert!(!AuthProof::of(1).proves(2));
    let both = AuthProof::of(1).and(5);
    assert!(both.proves(1));
    assert!(both.proves(5));
    assert!(!both.proves(3));
    assert!(AuthProof::none().and(9).proves(9));
}

#[test]
fn owner_check_without_a_stored_owner_is_not_initialized() {
    let access = AccessController::uninitialized();
    assert_eq!(access.owner(), None);
    assert_eq!(
        access.require_owner(&AuthProof::of(1), 1),
        Err(ExampleContractError::NotInitialized)
    );
    assert_eq!(
        access.require_stored_owner(&AuthProof::of(1)),
        Err(ExampleContractError::NotInitialized)
    );
    assert_eq!(
        access.require_owner(&AuthProof::none(), 1),
        Err(ExampleContractError::Unauthorized)
    );
}

#[test]
fn owner_check_needs_both_the_proof_and_the_owner() {
    let access = AccessController::new(1);
    assert_eq!(access.owner(), Some(1));
    assert_eq!(access.require_owner(&AuthProof::of(1), 1), Ok(()));
    assert_eq!(access.require_owner(&AuthProof::of(2), 2), Err(ExampleContractError::Unauthorized));
    assert_eq!(access.require_owner(&AuthProof::of(2), 1), Err(ExampleContractError::Unauthorized));
    assert_eq!(access.require_owner(&AuthProof::of(1), 2), Err(ExampleContractError::Unauthorized));
    assert_eq!(access.require_stored_owner(&AuthProof::of(1)), Ok(()));
    assert_eq!(
        access.require_stored_owner(&AuthProof::of(2)),
        Err(ExampleContractError::Unauthorized)
    );
}

#[test]
fn pause_gate_starts_active_and_guards_while_paused() {
    let mut gate = PauseGate::new();
    assert!(!gate.paused());
    assert_eq!(gate.when_not_paused(), Ok(()));
    gate.pause();
    assert!(gate.paused());
    assert_eq!(gate.when_not_paused(), Err(ExampleContractError::ContractPaused));
    gate.pause();
    assert!(gate.paused());
    gate.unpause();
    assert!(!gate.paused());
    assert_eq!(gate.when_not_paused(), Ok(()));
    gate.unpause();
    assert!(!gate.paused());
}

#[test]
fn upgrade_manager_remembers_the_last_code() {
    let mut upgrades = UpgradeManager::new();
    assert_eq!(upgrades.code_version(), None);
    upgrades.replace([1u8; 32]);
    assert_eq!(upgrades.code_version(), Some([1u8; 32]));
    upgrades.replace([2u8; 32]);
    assert_eq!(upgrades.code_version(), Some([2u8; 32]));
}

#[test]
fn new_ledger_is_empty_and_keeps_its_description() {
    let ledger = ledger();
    assert_eq!(ledger.total_supply(), 0);
    assert_eq!(ledger.balance(1), 0);
    assert_eq!(ledger.allowance(1, 2), 0);
    assert_eq!(ledger.allowance_data(1, 2), Allowance { amount: 0, live_until: 0 });
    assert_eq!(ledger.decimals(), 6);
    assert_eq!(ledger.name(), "Unit");
    assert_eq!(ledger.symbol(), "U");
}

#[test]
fn ledger_mint_adds_to_balance_and_supply() {
    let mut ledger = ledger();
    assert_eq!(ledger.mint(1, 40), Ok(()));
    assert_eq!(ledger.mint(2, 2), Ok(()));
    assert_eq!(ledger.mint(1, 0), Ok(()));
    assert_eq!(ledger.balance(1), 40);
    assert_eq!(ledger.balance(2), 2);
    assert_eq!(ledger.total_supply(), 42);
}

#[test]
fn ledger_mint_overflow_is_checked() {
    let mut ledger = ledger();
    assert_eq!(ledger.mint(1, i128::MAX), Ok(()));
    assert_eq!(ledger.mint(2, 1), Err(ExampleContractError::ArithmeticOverflow));
    assert_eq!(ledger.mint(1, 1), Err(ExampleContractError::ArithmeticOverflow));
    assert_eq!(ledger.total_supply(), i128::MAX);
    assert_eq!(ledger.balance(1), i128::MAX);
    assert_eq!(ledger.balance(2), 0);
}

#[test]
fn ledger_transfer_and_burn() {
    let mut ledger = ledger();
    assert_eq!(ledger.mint(1, 40), Ok(()));
    assert_eq!(ledger.transfer(1, 2, 15), Ok(()));
    assert_eq!(ledger.balance(1), 25);
    assert_eq!(ledger.balance(2), 15);
    assert_eq!(ledger.total_supply(), 40);
    assert_eq!(ledger.transfer(2, 1, 16), Err(ExampleContractError::InsufficientBalance));
    assert_eq!(ledger.burn(2, 16), Err(ExampleContractError::InsufficientBalance));
    assert_eq!(ledger.burn(2, 15), Ok(()));
    assert_eq!(ledger.balance(2), 0);
    assert_eq!(ledger.total_supply(), 25);
}

#[test]
fn ledger_spend_allowance_follows_amount_then_expiry() {
    let mut ledger = ledger();
    ledger.approve(1, 2, 10, 100);
    assert_eq!(ledger.allowance_data(1, 2), Allowance { amount: 10, live_until: 100 });
    assert_eq!(ledger.spend_allowance(1, 2, 11, 101), Err(ExampleContractError::InsufficientAllowance));
    assert_eq!(ledger.spend_allowance(1, 2, 10, 101), Err(ExampleContractError::AllowanceExpired));
    assert_eq!(ledger.spend_allowance(1, 2, 0, 101), Ok(()));
    assert_eq!(ledger.spend_allowance(1, 2, 4, 100), Ok(()));
    assert_eq!(ledger.allowance_data(1, 2), Allowance { amount: 6, live_until: 100 });
    assert_eq!(ledger.spend_allowance(1, 2, 6, 0), Ok(()));
    assert_eq!(ledger.allowance_data(1, 2), Allowance { amount: 0, live_until: 100 });
    assert_eq!(ledger.spend_allowance(2, 1, 1, 0), Err(ExampleContractError::InsufficientAllowance));
    assert_eq!(ledger.spend_allowance(2, 1, 0, 5), Ok(()));
    assert_eq!(ledger.allowance_data(2, 1), Allowance { amount: 0, live_until: 0 });
}

#[test]
fn ledger_transfer_from_and_burn_from_are_all_or_nothing() {
    let mut ledger = ledger();
    assert_eq!(ledger.mint(1, 40), Ok(()));
    ledger.approve(1, 2, 100, 9);
    assert_eq!(ledger.transfer_from(2, 1, 3, 41, 9), Err(ExampleContractError::InsufficientBalance));
    assert_eq!(ledger.burn_from(2, 1, 41, 9), Err(ExampleContractError::InsufficientBalance));
    assert_eq!(ledger.allowance(1, 2), 100);
    assert_eq!(ledger.transfer_from(2, 1, 3, 30, 9), Ok(()));
    assert_eq!(ledger.burn_from(2, 1, 10, 9), Ok(()));
    assert_eq!(ledger.allowance(1, 2), 60);
    assert_eq!(ledger.balance(1), 0);
    assert_eq!(ledger.balance(3), 30);
    assert_eq!(ledger.total_supply(), 30);
}
