use token_ledger::account::Account;
use token_ledger::errors::TransactionError;
use token_ledger::ledger::{AccountBalanceArgs, Ledger, TransferArg, DEFAULT_TRANSFER_FEE};
use token_ledger::{balance_of, total_supply, transfer};

const NOW: u64 = 1_700_000_000_000_000_000;

fn acct(b: u8) -> Account {
    Account { owner: vec![b], subaccount: Account::default_subaccount() }
}

fn plain_arg(to: Account, amount: u128) -> TransferArg {
    TransferArg {
        from_subaccount: None,
        to,
        amount,
        fee: None,
        memo: None,
        created_at_time: None,
    }
}

fn balance(l: &Ledger, b: u8) -> u128 {
    l.account_balance(AccountBalanceArgs { account: acct(b) })
}

fn fee_collector_balance(l: &Ledger) -> u128 {
    l.account_balance(AccountBalanceArgs { account: Account::fee_collector() })
}

#[test]
fn mint_credits_target_and_supply() {
    let mut l = Ledger::new();
    let caller = vec![1u8];
    let idx = l.mint(&caller, NOW, acct(1), 1_000_000);
    assert_eq!(idx, 0);
    assert_eq!(balance(&l, 1), 1_000_000);
    assert_eq!(l.total_supply, 1_000_000);
    assert_eq!(l.transactions.len(), 1);
}

#[test]
fn scenario_mint_transfer_insufficient() {
    // A ledger configured with a fee of 10 minor units.
    let mut l = Ledger::with_fee(10);
    let x = vec![1u8];

    let idx = l.mint(&x, NOW, acct(1), 1_000_000);
    assert_eq!(idx, 0);
    assert_eq!(balance(&l, 1), 1_000_000);
    assert_eq!(total_supply(&l), 1_000_000);

    let mut arg = plain_arg(acct(2), 100);
    arg.fee = Some(10);
    let r = l.transfer(&x, NOW, arg);
    assert_eq!(r, Ok(1));
    assert_eq!(balance(&l, 1), 999_890);
    assert_eq!(balance(&l, 2), 100);
    assert_eq!(fee_collector_balance(&l), 10);
    assert_eq!(total_supply(&l), 1_000_000);

    let r = l.transfer(&x, NOW, plain_arg(acct(2), 2_000_000));
    assert_eq!(r, Err(TransactionError::InsufficientFunds { balance: 999_890 }));
    assert_eq!(balance(&l, 1), 999_890);
    assert_eq!(balance(&l, 2), 100);
    assert_eq!(fee_collector_balance(&l), 10);
    assert_eq!(total_supply(&l), 1_000_000);
    assert_eq!(l.transactions.len(), 2);
}

#[test]
fn zero_amount_is_rejected_and_mutates_nothing() {
    let mut l = Ledger::new();
    let x = vec![1u8];
    l.mint(&x, NOW, acct(1), 50_000);
    let r = l.transfer(&x, NOW, plain_arg(acct(2), 0));
    assert_eq!(r, Err(TransactionError::BadFee));
    assert_eq!(balance(&l, 1), 50_000);
    assert_eq!(balance(&l, 2), 0);
    assert_eq!(l.total_supply, 50_000);
    assert_eq!(l.transactions.len(), 1);
}

#[test]
fn wrong_explicit_fee_is_rejected() {
    let mut l = Ledger::new();
    let x = vec![1u8];
    l.mint(&x, NOW, acct(1), 50_000);
    let mut arg = plain_arg(acct(2), 10);
    arg.fee = Some(DEFAULT_TRANSFER_FEE + 1);
    let r = l.transfer(&x, NOW, arg);
    assert_eq!(r, Err(TransactionError::BadFee));
    assert_eq!(balance(&l, 1), 50_000);
    assert_eq!(l.transactions.len(), 1);
}

#[test]
fn explicit_fee_equal_to_configured_fee_is_accepted() {
    let mut l = Ledger::new();
    let x = vec![1u8];
    l.mint(&x, NOW, acct(1), 50_000);
    let mut arg = plain_arg(acct(2), 10);
    arg.fee = Some(DEFAULT_TRANSFER_FEE);
    let r = l.transfer(&x, NOW, arg);
    assert_eq!(r, Ok(1));
    assert_eq!(balance(&l, 1), 50_000 - 10 - DEFAULT_TRANSFER_FEE);
}

#[test]
fn created_in_future_is_rejected() {
    let mut l = Ledger::new();
    let x = vec![1u8];
    l.mint(&x, NOW, acct(1), 50_000);
    let mut arg = plain_arg(acct(2), 10);
    arg.created_at_time = Some(NOW + 60_000_000_001);
    let r = l.transfer(&x, NOW, arg);
    assert_eq!(r, Err(TransactionError::CreatedInFuture { ledger_time: NOW }));
    assert_eq!(l.transactions.len(), 1);
}

#[test]
fn too_old_is_rejected() {
    let mut l = Ledger::new();
    let x = vec![1u8];
    l.mint(&x, NOW, acct(1), 50_000);
    let mut arg = plain_arg(acct(2), 10);
    arg.created_at_time = Some(NOW - 86_400_000_000_001);
    let r = l.transfer(&x, NOW, arg);
    assert_eq!(r, Err(TransactionError::TooOld));
    assert_eq!(l.transactions.len(), 1);
}

#[test]
fn timestamp_inside_window_is_accepted() {
    let mut l = Ledger::new();
    let x = vec![1u8];
    l.mint(&x, NOW, acct(1), 50_000);
    let mut arg = plain_arg(acct(2), 10);
    arg.created_at_time = Some(NOW);
    let r = l.transfer(&x, NOW, arg);
    assert_eq!(r, Ok(1));
}

#[test]
fn fee_routing_with_default_fee() {
    let mut l = Ledger::new();
    let x = vec![1u8];
    l.mint(&x, NOW, acct(1), 100_000);
    let r = l.transfer(&x, NOW, plain_arg(acct(2), 25_000));
    assert_eq!(r, Ok(1));
    assert_eq!(balance(&l, 1), 100_000 - 25_000 - DEFAULT_TRANSFER_FEE);
    assert_eq!(balance(&l, 2), 25_000);
    assert_eq!(fee_collector_balance(&l), DEFAULT_TRANSFER_FEE);
    assert_eq!(l.total_supply, 100_000);
}

#[test]
fn conservation_over_a_run_of_operations() {
    let mut l = Ledger::with_fee(7);
    let x = vec![1u8];
    let y = vec![2u8];
    l.mint(&x, NOW, acct(1), 500);
    l.mint(&y, NOW, acct(2), 300);
    l.transfer(&x, NOW, plain_arg(acct(2), 100)).unwrap();
    l.transfer(&y, NOW, plain_arg(acct(3), 50)).unwrap();
    let sum = balance(&l, 1) + balance(&l, 2) + balance(&l, 3) + fee_collector_balance(&l);
    assert_eq!(l.total_supply, sum);
    assert_eq!(l.total_supply, 800);
}

#[test]
fn monotonic_log_indices() {
    let mut l = Ledger::with_fee(1);
    let x = vec![1u8];
    let i0 = l.mint(&x, NOW, acct(1), 1_000);
    let i1 = l.mint(&x, NOW, acct(1), 1_000);
    let i2 = l.transfer(&x, NOW, plain_arg(acct(2), 5)).unwrap();
    let r = l.transfer(&x, NOW, plain_arg(acct(2), 0));
    assert!(r.is_err());
    let i3 = l.transfer(&x, NOW, plain_arg(acct(2), 6)).unwrap();
    assert_eq!(i0, 0);
    assert_eq!(i1, 1);
    assert_eq!(i2, 2);
    assert_eq!(i3, 3);
    assert_eq!(l.transactions.len() as u64, 4);
}

#[test]
fn transfer_to_self_costs_only_the_fee() {
    let mut l = Ledger::with_fee(3);
    let x = vec![1u8];
    l.mint(&x, NOW, acct(1), 100);
    let r = l.transfer(&x, NOW, plain_arg(acct(1), 40));
    assert_eq!(r, Ok(1));
    assert_eq!(balance(&l, 1), 97);
    assert_eq!(fee_collector_balance(&l), 3);
    assert_eq!(l.total_supply, 100);
}

#[test]
fn unknown_account_has_zero_balance() {
    let l = Ledger::new();
    assert_eq!(balance(&l, 9), 0);
    assert_eq!(l.total_supply, 0);
}

#[test]
fn sender_chooses_a_subaccount() {
    let mut l = Ledger::with_fee(2);
    let x = vec![1u8];
    let mut sub = vec![0u8; 32];
    sub[0] = 7;
    let from = Account { owner: vec![1u8], subaccount: sub.clone() };
    l.mint(&x, NOW, from, 100);
    // Drawing from the default sub-account fails: that account is empty.
    let r = l.transfer(&x, NOW, plain_arg(acct(2), 10));
    assert_eq!(r, Err(TransactionError::InsufficientFunds { balance: 0 }));
    // Drawing from the funded sub-account succeeds.
    let mut arg = plain_arg(acct(2), 10);
    arg.from_subaccount = Some(sub);
    let r = l.transfer(&x, NOW, arg);
    assert_eq!(r, Ok(1));
    assert_eq!(balance(&l, 2), 10);
}

#[test]
fn transfer_record_lands_in_the_log() {
    let mut l = Ledger::with_fee(5);
    let x = vec![1u8];
    l.mint(&x, NOW, acct(1), 1_000);
    let mut arg = plain_arg(acct(2), 10);
    arg.memo = Some(vec![0xAB, 0xCD]);
    l.transfer(&x, NOW + 1, arg).unwrap();
    assert_eq!(l.transactions.len(), 2);
    let rec = l.transactions.get(1);
    assert_eq!(rec.created_at_time, NOW + 1);
    assert_eq!(rec.caller, vec![1u8]);
    assert_eq!(rec.memo, Some(vec![0xAB, 0xCD]));
    match &rec.operation {
        token_ledger::tx_log::Operation::Transfer { from, to, amount, fee } => {
            assert_eq!(*from, acct(1));
            assert_eq!(*to, acct(2));
            assert_eq!(*amount, 10);
            assert_eq!(*fee, 5);
        },
        other => panic!("unexpected operation {:?}", other),
    }
}

#[test]
fn free_functions_mirror_the_methods() {
    let mut l = Ledger::with_fee(4);
    let x = vec![1u8];
    l.mint(&x, NOW, acct(1), 1_000);
    let r = transfer(&mut l, &x, NOW, plain_arg(acct(2), 6));
    assert_eq!(r, Ok(1));
    assert_eq!(balance_of(&l, AccountBalanceArgs { account: acct(2) }), 6);
    assert_eq!(total_supply(&l), 1_000);
}

#[test]
fn insufficient_when_amount_plus_fee_exceeds_balance() {
    let mut l = Ledger::with_fee(10);
    let x = vec![1u8];
    l.mint(&x, NOW, acct(1), 100);
    // 95 + 10 > 100 even though 95 alone fits.
    let r = l.transfer(&x, NOW, plain_arg(acct(2), 95));
    assert_eq!(r, Err(TransactionError::InsufficientFunds { balance: 100 }));
    // Exactly amount + fee == balance drains the account.
    let r = l.transfer(&x, NOW, plain_arg(acct(2), 90));
    assert_eq!(r, Ok(1));
    assert_eq!(balance(&l, 1), 0);
}
