use the_basement::AccountId;
use the_basement::BinType;
use the_basement::ErrorCode;
use the_basement::FarmLedger;

fn total_of_records(ledger: &FarmLedger) -> u64 {
    ledger.users.iter().map(|u| u.amount).sum()
}

#[test]
fn initialize_starts_empty_with_default_table() {
    let ledger = FarmLedger::initialize(AccountId(1), AccountId(2), 25, 254);
    assert_eq!(ledger.farm.authority, AccountId(1));
    assert_eq!(ledger.farm.token_mint, AccountId(2));
    assert_eq!(ledger.farm.total_deposits, 0);
    assert_eq!(ledger.farm.bins_count, 25);
    assert_eq!(ledger.farm.bump, 254);
    assert_eq!(ledger.users.len(), 0);

    let table = &ledger.farm.bin_allocations;
    assert_eq!(table.len(), 3);
    assert_eq!(table[0].bin_type, BinType::LargeBin);
    assert_eq!(table[0].allocation_percentage, 80);
    assert_eq!(table[0].step_size, 657);
    assert_eq!(table[0].bin_count, 20);
    assert_eq!(table[1].bin_type, BinType::MediumBin);
    assert_eq!(table[1].allocation_percentage, 10);
    assert_eq!(table[1].step_size, 135);
    assert_eq!(table[1].bin_count, 4);
    assert_eq!(table[2].bin_type, BinType::SmallBin);
    assert_eq!(table[2].allocation_percentage, 10);
    assert_eq!(table[2].step_size, 34);
    assert_eq!(table[2].bin_count, 1);
    let percent_total: u32 = table.iter().map(|b| b.allocation_percentage as u32).sum();
    assert_eq!(percent_total, 100);
    assert!(table.iter().all(|b| b.current_allocation == 0));
}

#[test]
fn create_vault_binds_the_farm_token_and_starts_empty() {
    let ledger = FarmLedger::initialize(AccountId(1), AccountId(7), 25, 254);
    let vault = ledger.create_vault();
    assert_eq!(vault.token_mint, AccountId(7));
    assert_eq!(vault.amount, 0);
}

#[test]
fn deposit_then_partial_then_rejected_withdrawal() {
    // A user deposits 1000, withdraws 400, then asks for 700: the last
    // request exceeds the 600 still recorded and must change nothing.
    let mut ledger = FarmLedger::initialize(AccountId(1), AccountId(2), 25, 254);
    let user = AccountId(10);

    ledger.deposit(user, 1000, 100);
    assert_eq!(ledger.balance_of_user(user), 1000);
    assert_eq!(ledger.farm.total_deposits, 1000);

    assert_eq!(ledger.withdraw(user, 400, 101), Ok(()));
    assert_eq!(ledger.balance_of_user(user), 600);
    assert_eq!(ledger.farm.total_deposits, 600);

    assert_eq!(ledger.withdraw(user, 700, 102), Err(ErrorCode::InsufficientFunds));
    assert_eq!(ledger.balance_of_user(user), 600);
    assert_eq!(ledger.farm.total_deposits, 600);
}

#[test]
fn balance_tracks_deposits_minus_successful_withdrawals() {
    let mut ledger = FarmLedger::initialize(AccountId(1), AccountId(2), 25, 254);
    let user = AccountId(42);

    ledger.deposit(user, 300, 1);
    ledger.deposit(user, 200, 2);
    assert_eq!(ledger.withdraw(user, 450, 3), Ok(()));
    assert_eq!(ledger.withdraw(user, 100, 4), Err(ErrorCode::InsufficientFunds));
    ledger.deposit(user, 75, 5);
    assert_eq!(ledger.withdraw(user, 25, 6), Ok(()));

    // deposits 300 + 200 + 75, successful withdrawals 450 + 25
    assert_eq!(ledger.balance_of_user(user), 300 + 200 + 75 - 450 - 25);
}

#[test]
fn rejected_withdrawal_changes_no_record() {
    let mut ledger = FarmLedger::initialize(AccountId(1), AccountId(2), 25, 254);
    ledger.deposit(AccountId(10), 500, 10);
    ledger.deposit(AccountId(11), 800, 11);

    assert_eq!(ledger.withdraw(AccountId(10), 501, 12), Err(ErrorCode::InsufficientFunds));
    assert_eq!(ledger.balance_of_user(AccountId(10)), 500);
    assert_eq!(ledger.balance_of_user(AccountId(11)), 800);
    assert_eq!(ledger.farm.total_deposits, 1300);
    assert_eq!(ledger.users[0].last_update_time, 10);
    assert_eq!(ledger.users[1].last_update_time, 11);
}

#[test]
fn withdrawal_without_a_record_is_rejected() {
    let mut ledger = FarmLedger::initialize(AccountId(1), AccountId(2), 25, 254);
    assert_eq!(ledger.withdraw(AccountId(99), 1, 5), Err(ErrorCode::InsufficientFunds));
    assert_eq!(ledger.farm.total_deposits, 0);
    assert_eq!(ledger.users.len(), 0);
}

#[test]
fn withdrawing_the_whole_balance_leaves_zero() {
    let mut ledger = FarmLedger::initialize(AccountId(1), AccountId(2), 25, 254);
    let user = AccountId(10);
    ledger.deposit(user, 250, 1);
    assert_eq!(ledger.withdraw(user, 250, 2), Ok(()));
    assert_eq!(ledger.balance_of_user(user), 0);
    assert_eq!(ledger.farm.total_deposits, 0);
}

#[test]
fn farm_total_is_the_sum_of_all_user_balances() {
    let mut ledger = FarmLedger::initialize(AccountId(1), AccountId(2), 25, 254);
    ledger.deposit(AccountId(10), 1000, 1);
    ledger.deposit(AccountId(11), 50, 2);
    ledger.deposit(AccountId(12), 7, 3);
    assert_eq!(ledger.withdraw(AccountId(11), 20, 4), Ok(()));
    assert_eq!(ledger.withdraw(AccountId(12), 100, 5), Err(ErrorCode::InsufficientFunds));
    ledger.deposit(AccountId(10), 3, 6);

    assert_eq!(ledger.farm.total_deposits, total_of_records(&ledger));
    assert_eq!(ledger.farm.total_deposits, 1000 + 50 + 7 - 20 + 3);
}

#[test]
fn deposits_by_one_user_leave_others_alone() {
    let mut ledger = FarmLedger::initialize(AccountId(1), AccountId(2), 25, 254);
    ledger.deposit(AccountId(10), 100, 1);
    ledger.deposit(AccountId(11), 200, 2);
    ledger.deposit(AccountId(10), 5, 3);
    assert_eq!(ledger.balance_of_user(AccountId(10)), 105);
    assert_eq!(ledger.balance_of_user(AccountId(11)), 200);
    assert_eq!(ledger.users.len(), 2);
}

#[test]
fn deposit_updates_the_timestamp() {
    let mut ledger = FarmLedger::initialize(AccountId(1), AccountId(2), 25, 254);
    let user = AccountId(10);
    ledger.deposit(user, 100, 1700000001);
    assert_eq!(ledger.users[0].last_update_time, 1700000001);
    assert_eq!(ledger.withdraw(user, 10, 1700000002), Ok(()));
    assert_eq!(ledger.users[0].last_update_time, 1700000002);
}

#[test]
fn rebalance_requires_the_authority_and_changes_nothing() {
    let mut ledger = FarmLedger::initialize(AccountId(1), AccountId(2), 25, 254);
    ledger.deposit(AccountId(10), 1000, 1);

    assert_eq!(ledger.rebalance(AccountId(99)), Err(ErrorCode::Unauthorized));
    assert_eq!(ledger.rebalance(AccountId(1)), Ok(()));

    assert_eq!(ledger.balance_of_user(AccountId(10)), 1000);
    assert_eq!(ledger.farm.total_deposits, 1000);
    assert_eq!(ledger.farm.bin_allocations[0].current_allocation, 0);
}

#[test]
fn compound_rewards_requires_the_authority_and_changes_nothing() {
    let mut ledger = FarmLedger::initialize(AccountId(1), AccountId(2), 25, 254);
    ledger.deposit(AccountId(10), 1000, 1);

    assert_eq!(ledger.compound_rewards(AccountId(99)), Err(ErrorCode::Unauthorized));
    assert_eq!(ledger.compound_rewards(AccountId(1)), Ok(()));

    assert_eq!(ledger.balance_of_user(AccountId(10)), 1000);
    assert_eq!(ledger.farm.total_deposits, 1000);
}
