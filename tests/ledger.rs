use cktestbtc_wallet::account::{Account, AllowanceArgs, Principal};
use cktestbtc_wallet::ledger::{
    Allowance, ApproveArgs, ApproveError, Ledger, MetadataValue, TransferArg, TransferError,
    TransferFromArgs, TransferFromError, TRANSFER_FEE,
};

fn p(b: u8) -> Principal {
    Principal::from_bytes(vec![b, b, 1])
}

fn acct(b: u8) -> Account {
    Account::of(p(b))
}

fn minter() -> Principal {
    p(200)
}

fn ledger() -> Ledger {
    Ledger::new(vec![minter()], acct(201))
}

fn transfer_arg(to: Account, amount: u64, fee: Option<u64>) -> TransferArg {
    TransferArg { from_subaccount: None, to, amount, fee, memo: None, created_at_time: None }
}

fn text_of(x: &Principal) -> String {
    candid::Principal::from_slice(&x.bytes).to_text()
}

#[test]
fn unknown_account_has_zero_balance() {
    let l = ledger();
    assert_eq!(l.icrc1_balance_of(&acct(1)), 0);
    assert_eq!(l.icrc1_total_supply(), 0);
}

#[test]
fn mint_credits_and_counts_supply() {
    let mut l = ledger();
    assert_eq!(l.mint(&minter(), acct(1), 1000), Ok(0));
    assert_eq!(l.mint(&minter(), acct(1), 500), Ok(1));
    assert_eq!(l.icrc1_balance_of(&acct(1)), 1500);
    assert_eq!(l.icrc1_total_supply(), 1500);
}

#[test]
fn mint_refused_to_unauthorized_caller() {
    let mut l = ledger();
    let r = l.mint(&p(7), acct(1), 1000);
    let expected = format!("Only authorized minters can mint tokens. Caller: {}", text_of(&p(7)));
    assert_eq!(r, Err(TransferError::GenericError { error_code: 1, message: expected }));
    assert_eq!(l.icrc1_balance_of(&acct(1)), 0);
    assert_eq!(l.icrc1_total_supply(), 0);
}

#[test]
fn mint_refused_past_largest_supply() {
    let mut l = ledger();
    assert_eq!(l.mint(&minter(), acct(1), u64::MAX), Ok(0));
    let r = l.mint(&minter(), acct(2), 1);
    assert!(matches!(r, Err(TransferError::GenericError { error_code: 2, .. })));
    assert_eq!(l.icrc1_balance_of(&acct(2)), 0);
}

#[test]
fn transfer_moves_amount_and_burns_fee() {
    let mut l = ledger();
    l.mint(&minter(), acct(1), 1000).unwrap();
    let r = l.icrc1_transfer(&p(1), transfer_arg(acct(2), 100, None));
    assert_eq!(r, Ok(1));
    assert_eq!(l.icrc1_balance_of(&acct(1)), 890);
    assert_eq!(l.icrc1_balance_of(&acct(2)), 100);
    assert_eq!(l.icrc1_total_supply(), 990);
}

#[test]
fn transfer_with_explicit_fixed_fee() {
    let mut l = ledger();
    l.mint(&minter(), acct(1), 1000).unwrap();
    assert_eq!(l.icrc1_transfer(&p(1), transfer_arg(acct(2), 100, Some(10))), Ok(1));
    assert_eq!(l.icrc1_balance_of(&acct(1)), 890);
}

#[test]
fn transfer_bad_fee() {
    let mut l = ledger();
    l.mint(&minter(), acct(1), 1000).unwrap();
    let r = l.icrc1_transfer(&p(1), transfer_arg(acct(2), 100, Some(5)));
    assert_eq!(r, Err(TransferError::BadFee { expected_fee: TRANSFER_FEE }));
    assert_eq!(l.icrc1_balance_of(&acct(1)), 1000);
}

#[test]
fn transfer_insufficient_funds_changes_nothing() {
    let mut l = ledger();
    l.mint(&minter(), acct(1), 100).unwrap();
    let r = l.icrc1_transfer(&p(1), transfer_arg(acct(2), 91, None));
    assert_eq!(r, Err(TransferError::InsufficientFunds { balance: 100 }));
    assert_eq!(l.icrc1_balance_of(&acct(1)), 100);
    assert_eq!(l.icrc1_balance_of(&acct(2)), 0);
    // exactly amount plus fee is enough
    assert_eq!(l.icrc1_transfer(&p(1), transfer_arg(acct(2), 90, None)), Ok(1));
    assert_eq!(l.icrc1_balance_of(&acct(1)), 0);
}

#[test]
fn transfer_amount_near_largest_value_is_insufficient() {
    let mut l = ledger();
    l.mint(&minter(), acct(1), 100).unwrap();
    let r = l.icrc1_transfer(&p(1), transfer_arg(acct(2), u64::MAX, None));
    assert_eq!(r, Err(TransferError::InsufficientFunds { balance: 100 }));
}

#[test]
fn transfer_from_subaccount_uses_that_balance() {
    let mut l = ledger();
    let sub = Account { owner: p(1), subaccount: Some(vec![9; 32]) };
    l.mint(&minter(), sub.clone(), 500).unwrap();
    let mut arg = transfer_arg(acct(2), 100, None);
    arg.from_subaccount = Some(vec![9; 32]);
    assert_eq!(l.icrc1_transfer(&p(1), arg), Ok(1));
    assert_eq!(l.icrc1_balance_of(&sub), 390);
    assert_eq!(l.icrc1_balance_of(&acct(1)), 0);
}

#[test]
fn sum_of_balances_plus_fees_is_conserved() {
    let mut l = ledger();
    l.mint(&minter(), acct(1), 10_000).unwrap();
    l.mint(&minter(), acct(2), 5_000).unwrap();
    let before: u64 = [1, 2, 3].iter().map(|b| l.icrc1_balance_of(&acct(*b))).sum();
    let mut fees = 0;
    l.icrc1_transfer(&p(1), transfer_arg(acct(2), 300, None)).unwrap();
    fees += 10;
    l.icrc1_transfer(&p(2), transfer_arg(acct(3), 1200, None)).unwrap();
    fees += 10;
    l.icrc1_transfer(&p(3), transfer_arg(acct(1), 50, None)).unwrap();
    fees += 10;
    let after: u64 = [1, 2, 3].iter().map(|b| l.icrc1_balance_of(&acct(*b))).sum();
    assert_eq!(after + fees, before);
    assert_eq!(l.icrc1_total_supply(), after);
}

fn approve_arg(spender: Account, amount: u64) -> ApproveArgs {
    ApproveArgs {
        fee: None,
        memo: None,
        from_subaccount: None,
        created_at_time: None,
        amount,
        expected_allowance: None,
        expires_at: Some(77),
        spender,
    }
}

fn allowance_key(owner: u8, spender: u8) -> AllowanceArgs {
    AllowanceArgs { account: acct(owner), spender: acct(spender) }
}

#[test]
fn approve_sets_allowance_and_charges_fee() {
    let mut l = ledger();
    l.mint(&minter(), acct(1), 1000).unwrap();
    assert_eq!(l.icrc2_approve(&p(1), approve_arg(acct(2), 500)), Ok(1));
    assert_eq!(l.icrc1_balance_of(&acct(1)), 990);
    assert_eq!(
        l.icrc2_allowance(&allowance_key(1, 2)),
        Allowance { allowance: 500, expires_at: Some(77) }
    );
    // approving again overwrites
    assert_eq!(l.icrc2_approve(&p(1), approve_arg(acct(2), 40)), Ok(2));
    assert_eq!(l.icrc2_allowance(&allowance_key(1, 2)).allowance, 40);
}

#[test]
fn approve_without_fee_funds_fails() {
    let mut l = ledger();
    l.mint(&minter(), acct(1), 9).unwrap();
    assert_eq!(
        l.icrc2_approve(&p(1), approve_arg(acct(2), 500)),
        Err(ApproveError::InsufficientFunds { balance: 9 })
    );
    let mut bad = approve_arg(acct(2), 500);
    bad.fee = Some(11);
    assert_eq!(l.icrc2_approve(&p(1), bad), Err(ApproveError::BadFee { expected_fee: 10 }));
}

fn transfer_from_arg(from: u8, to: u8, amount: u64) -> TransferFromArgs {
    TransferFromArgs {
        spender_subaccount: None,
        from: acct(from),
        to: acct(to),
        amount,
        fee: None,
        memo: None,
        created_at_time: None,
    }
}

#[test]
fn transfer_from_uses_up_allowance() {
    let mut l = ledger();
    l.mint(&minter(), acct(1), 1000).unwrap();
    l.icrc2_approve(&p(1), approve_arg(acct(2), 300)).unwrap();
    assert_eq!(l.icrc2_transfer_from(&p(2), transfer_from_arg(1, 3, 200)), Ok(2));
    assert_eq!(l.icrc1_balance_of(&acct(1)), 990 - 210);
    assert_eq!(l.icrc1_balance_of(&acct(3)), 200);
    assert_eq!(l.icrc2_allowance(&allowance_key(1, 2)).allowance, 90);
    // the same request again exceeds what is left
    assert_eq!(
        l.icrc2_transfer_from(&p(2), transfer_from_arg(1, 3, 200)),
        Err(TransferFromError::InsufficientAllowance { allowance: 90 })
    );
    assert_eq!(l.icrc1_balance_of(&acct(1)), 780);
}

#[test]
fn exhausted_allowance_is_removed() {
    let mut l = ledger();
    l.mint(&minter(), acct(1), 1000).unwrap();
    l.icrc2_approve(&p(1), approve_arg(acct(2), 110)).unwrap();
    l.icrc2_transfer_from(&p(2), transfer_from_arg(1, 3, 100)).unwrap();
    assert_eq!(
        l.icrc2_allowance(&allowance_key(1, 2)),
        Allowance { allowance: 0, expires_at: None }
    );
}

#[test]
fn transfer_from_insufficient_funds() {
    let mut l = ledger();
    l.mint(&minter(), acct(1), 100).unwrap();
    l.icrc2_approve(&p(1), approve_arg(acct(2), 1000)).unwrap();
    assert_eq!(
        l.icrc2_transfer_from(&p(2), transfer_from_arg(1, 3, 500)),
        Err(TransferFromError::InsufficientFunds { balance: 90 })
    );
    assert_eq!(l.icrc2_allowance(&allowance_key(1, 2)).allowance, 1000);
}

#[test]
fn token_metadata() {
    let l = ledger();
    assert_eq!(l.icrc1_name(), "ckTestBTC");
    assert_eq!(l.icrc1_symbol(), "ckTestBTC");
    assert_eq!(l.icrc1_decimals(), 8);
    assert_eq!(l.icrc1_fee(), 10);
    let m = l.icrc1_metadata();
    assert_eq!(m.len(), 4);
    assert_eq!(m[0].0, "icrc1:name");
    assert_eq!(m[3], ("icrc1:fee".to_string(), MetadataValue::Nat(10)));
    let s = l.icrc1_supported_standards();
    assert_eq!(s[0].name, "ICRC-1");
    assert_eq!(s[1].url, "https://github.com/dfinity/ICRC-1/tree/main/standards/ICRC-2");
    assert_eq!(l.icrc1_minting_account(), Some(acct(201)));
}
