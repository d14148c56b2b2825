use cktestbtc_wallet::account::{Account, Principal};
use cktestbtc_wallet::digest::generate_subaccount_for_user;
use cktestbtc_wallet::ledger::{Ledger, TransferArg, TransferError};
use cktestbtc_wallet::wallet::{
    deposit_to_custody_check, faucet_refusal, format_transfer_error, get_btc_address,
    is_valid_testbtc_address, parse_amount, wallet_status, DepositReceipt, TextResult,
    TransactionStatus, TransactionType, Wallet, LEDGER_FEE,
};
use sha2::Digest;

fn p(b: u8) -> Principal {
    Principal::from_bytes(vec![b, 7, 7])
}

fn text_of(x: &Principal) -> String {
    candid::Principal::from_slice(&x.bytes).to_text()
}

fn funded(user: &Principal, amount: u64) -> Wallet {
    let mut w = Wallet::new();
    assert_eq!(w.deposit_funds_finish(user, amount, Ok(Ok(3)), 1), Ok(3));
    w
}

#[test]
fn deposit_funds_credits_virtual_balance() {
    let w = funded(&p(1), 500);
    assert_eq!(w.get_virtual_balance(&p(1)), 500);
    assert_eq!(w.get_virtual_balance_formatted(&p(1)), 500);
    let h = w.get_custodial_transaction_history();
    assert_eq!(h.len(), 1);
    assert_eq!(h[0].tx_type, TransactionType::Deposit);
    assert_eq!(h[0].status, TransactionStatus::Confirmed);
    assert_eq!(h[0].block_index, Some(3));
}

#[test]
fn deposit_funds_failure_leaves_balance() {
    let mut w = Wallet::new();
    let r = w.deposit_funds_finish(&p(1), 500, Ok(Err(TransferError::TooOld)), 1);
    assert_eq!(r, Err("Deposit transfer failed: Transaction too old".to_string()));
    let r = w.deposit_funds_finish(&p(1), 500, Err("timeout".to_string()), 2);
    assert_eq!(r, Err("Deposit call failed: timeout".to_string()));
    assert_eq!(w.get_virtual_balance(&p(1)), 0);
    let h = w.get_custodial_transaction_history();
    assert_eq!(h.len(), 2);
    assert!(h.iter().all(|t| t.status == TransactionStatus::Failed));
}

#[test]
fn virtual_transfer_to_self_always_fails() {
    let mut w = funded(&p(1), 500);
    for amount in [0u64, 1, 500, u64::MAX] {
        let r = w.virtual_transfer(&p(1), &p(1), amount, 5);
        let t = text_of(&p(1));
        assert_eq!(r, Err(format!("Cannot transfer to yourself: {} -> {}", t, t)));
    }
    assert_eq!(w.get_virtual_balance(&p(1)), 500);
}

#[test]
fn virtual_transfer_moves_balance() {
    let mut w = funded(&p(1), 500);
    assert_eq!(w.virtual_transfer(&p(1), &p(2), 120, 5), Ok(2));
    assert_eq!(w.get_virtual_balance(&p(1)), 380);
    assert_eq!(w.get_virtual_balance(&p(2)), 120);
    let h = w.get_custodial_transaction_history();
    assert_eq!(h[0].tx_type, TransactionType::Send);
    assert_eq!(h[0].block_index, None);
    assert_eq!(h[0].on_chain_amount, None);
    assert_eq!(w.get_reserve_status(0).total_virtual_balances, 500);
}

#[test]
fn virtual_transfer_insufficient_balance() {
    let mut w = funded(&p(1), 500);
    let r = w.virtual_transfer(&p(1), &p(2), 501, 5);
    assert_eq!(r, Err("Insufficient virtual balance. Available: 500, Requested: 501".to_string()));
    assert_eq!(w.get_virtual_balance(&p(1)), 500);
    assert_eq!(w.get_virtual_balance(&p(2)), 0);
    assert_eq!(w.get_custodial_transaction_history()[0].status, TransactionStatus::Failed);
}

#[test]
fn withdraw_failure_leaves_virtual_balance() {
    let mut w = funded(&p(1), 500);
    assert_eq!(w.withdraw_begin(&p(1), 200, 2), Ok(()));
    let r = w.withdraw_finish(&p(1), 200, Ok(Err(TransferError::TemporarilyUnavailable)), 3);
    assert_eq!(r, Err("Withdrawal transfer failed: Service temporarily unavailable".to_string()));
    assert_eq!(w.get_virtual_balance(&p(1)), 500);
    let r = w.withdraw_finish(&p(1), 200, Err("rejected".to_string()), 4);
    assert_eq!(r, Err("Withdrawal call failed: rejected".to_string()));
    assert_eq!(w.get_virtual_balance(&p(1)), 500);
}

#[test]
fn withdraw_success_lowers_balance_once() {
    let mut w = funded(&p(1), 500);
    assert_eq!(w.withdraw_begin(&p(1), 200, 2), Ok(()));
    assert_eq!(w.withdraw_finish(&p(1), 200, Ok(Ok(9)), 3), Ok(9));
    assert_eq!(w.get_virtual_balance(&p(1)), 300);
    let h = w.get_custodial_transaction_history();
    assert_eq!(h[0].tx_type, TransactionType::Withdraw);
    assert_eq!(h[0].block_index, Some(9));
}

#[test]
fn withdraw_begin_refuses_overdraft() {
    let mut w = funded(&p(1), 50);
    let r = w.withdraw_begin(&p(1), 51, 2);
    assert_eq!(r, Err("Insufficient virtual balance. Available: 50, Requested: 51".to_string()));
    assert_eq!(w.get_virtual_balance(&p(1)), 50);
}

#[test]
fn concurrent_withdrawals_settle_at_most_once() {
    let mut w = funded(&p(1), 100);
    // both first phases pass before either ledger call returns
    assert_eq!(w.withdraw_begin(&p(1), 100, 2), Ok(()));
    assert_eq!(w.withdraw_begin(&p(1), 100, 2), Ok(()));
    assert_eq!(w.withdraw_finish(&p(1), 100, Ok(Ok(11)), 3), Ok(11));
    let second = w.withdraw_finish(&p(1), 100, Ok(Ok(12)), 4);
    assert_eq!(second, Err("Insufficient virtual balance. Available: 0, Requested: 100".to_string()));
    assert_eq!(w.get_virtual_balance(&p(1)), 0);
}

#[test]
fn history_is_newest_first_and_capped() {
    let mut w = Wallet::new();
    for i in 0..150u64 {
        w.transfer_icp_local(&p(1), &p(2), i, i).unwrap();
    }
    let h = w.get_transaction_history();
    assert_eq!(h.len(), 100);
    assert_eq!(h[0].id, 150);
    assert_eq!(h[0].amount, 149);
    assert_eq!(h[99].id, 51);
    for k in 1..h.len() {
        assert!(h[k - 1].id > h[k].id);
    }
    assert_eq!(w.get_transaction(7).unwrap().amount, 6);
    assert!(w.get_transaction(151).is_none());
    assert!(w.get_transaction(0).is_none());
}

#[test]
fn custodial_history_is_newest_first_and_capped() {
    let mut w = funded(&p(1), 1000);
    for i in 0..120u64 {
        w.virtual_transfer(&p(1), &p(2), 1, i).unwrap();
    }
    let h = w.get_custodial_transaction_history();
    assert_eq!(h.len(), 100);
    assert_eq!(h[0].id, 121);
    assert_eq!(h[99].id, 22);
}

#[test]
fn short_history_is_complete() {
    let mut w = Wallet::new();
    w.transfer_icp_local(&p(1), &p(2), 5, 1).unwrap();
    w.transfer_icp_local(&p(1), &p(2), 6, 2).unwrap();
    let h = w.get_transaction_history();
    assert_eq!(h.len(), 2);
    assert_eq!(h[0].amount, 6);
    assert_eq!(h[0].token, "ICP");
    assert_eq!(h[1].from, text_of(&p(1)));
    assert_eq!(h[1].block_index, Some(1));
}

#[test]
fn transfer_error_texts() {
    let cases = vec![
        (TransferError::BadFee { expected_fee: 10 }, "Bad fee. Expected: 10 satoshis"),
        (TransferError::BadBurn { min_burn_amount: 5 }, "Bad burn amount. Minimum: 5 satoshis"),
        (TransferError::InsufficientFunds { balance: 999 }, "Insufficient funds. Balance: 999 satoshis"),
        (TransferError::TooOld, "Transaction too old"),
        (
            TransferError::CreatedInFuture { ledger_time: 123456789 },
            "Transaction created in future. Ledger time: 123456789",
        ),
        (TransferError::Duplicate { duplicate_of: 0 }, "Duplicate transaction. Original block: 0"),
        (TransferError::TemporarilyUnavailable, "Service temporarily unavailable"),
        (
            TransferError::GenericError { error_code: 42, message: "boom".to_string() },
            "Error 42: boom",
        ),
    ];
    for (e, text) in cases {
        assert_eq!(format_transfer_error(&e), text);
    }
}

#[test]
fn status_counts_unread_balance_as_zero() {
    let s = wallet_status(Some(30), None);
    assert_eq!(s.custodial_balance, 30);
    assert_eq!(s.personal_balance, 0);
    assert_eq!(s.total_available, 30);
    assert!(!s.can_deposit);
    let s = wallet_status(Some(u64::MAX), Some(u64::MAX));
    assert_eq!(s.total_available, 2 * (u64::MAX as u128));
    assert!(s.can_deposit);
}

#[test]
fn reserve_status_compares_totals() {
    let mut w = funded(&p(1), 300);
    w.deposit_funds_finish(&p(2), 200, Ok(Ok(4)), 2).unwrap();
    let r = w.get_reserve_status(450);
    assert_eq!(r.total_virtual_balances, 500);
    assert_eq!(r.backend_actual_balance, 450);
    assert!(!r.is_solvent);
    assert!(w.get_reserve_status(500).is_solvent);
    assert!(Wallet::new().get_reserve_status(0).is_solvent);
}

#[test]
fn virtual_total_bound_refuses_deposit() {
    let mut w = funded(&p(1), u64::MAX);
    let r = w.deposit_funds_finish(&p(2), 1, Ok(Ok(5)), 2);
    assert_eq!(r, Err("Virtual balance limit exceeded".to_string()));
    assert_eq!(w.get_virtual_balance(&p(2)), 0);
}

#[test]
fn amounts_need_exactly_one_digit() {
    assert_eq!(parse_amount(&vec![42]), Ok(42));
    assert_eq!(parse_amount(&vec![]), Err("Invalid amount format".to_string()));
    assert_eq!(parse_amount(&vec![1, 1]), Err("Invalid amount format".to_string()));
}

#[test]
fn subaccount_is_hash_of_user_and_tag() {
    let user = p(3);
    let mut h = sha2::Sha256::new();
    h.update(&user.bytes);
    h.update(b"ckTestBTC_custodial_account");
    let expected = h.finalize().to_vec();
    let got = generate_subaccount_for_user(&user);
    assert_eq!(got, expected);
    assert_eq!(got.len(), 32);
    assert_ne!(generate_subaccount_for_user(&p(4)), got);
}

#[test]
fn btc_address_local_and_remote() {
    let user = p(3);
    let digest = sha2::Sha256::digest(&user.bytes);
    let expected = format!("tb1q{}", &hex::encode(&digest[..20])[..32]);
    assert_eq!(get_btc_address(&user, true), TextResult::Success(expected));
    let text = text_of(&user);
    assert_eq!(
        get_btc_address(&user, false),
        TextResult::Success(format!("tb1q_testbtc_address_for_{}", &text[..8]))
    );
}

#[test]
fn testbtc_address_prefixes() {
    assert!(is_valid_testbtc_address("tb1qxyz"));
    assert!(is_valid_testbtc_address("2N3o"));
    assert!(is_valid_testbtc_address("mipc"));
    assert!(is_valid_testbtc_address("n1ab"));
    assert!(!is_valid_testbtc_address("bc1q"));
    assert!(!is_valid_testbtc_address("tb"));
    assert!(!is_valid_testbtc_address(""));
}

#[test]
fn faucet_only_locally() {
    assert_eq!(faucet_refusal(true), None);
    assert_eq!(
        faucet_refusal(false),
        Some(TextResult::Failure("Faucet only available in local development".to_string()))
    );
    let mut w = Wallet::new();
    let r = w.faucet_finish(&p(1), Ok(Ok(4)), 9);
    assert_eq!(r, TextResult::Success(format!("Successfully minted 1 ckTestBTC to {}", text_of(&p(1)))));
    let h = w.get_transaction_history();
    assert_eq!(h[0].tx_type, TransactionType::Mint);
    assert_eq!(h[0].amount, 100_000_000);
    assert_eq!(h[0].from, "faucet");
    let r = w.faucet_finish(&p(1), Ok(Err(TransferError::TooOld)), 9);
    assert_eq!(r, TextResult::Failure("Mint failed: Transaction too old".to_string()));
    assert_eq!(w.get_transaction_history().len(), 1);
}

#[test]
fn send_records_both_sides() {
    let mut w = Wallet::new();
    assert_eq!(w.transfer_check(&p(1), &p(2), 100, Ok(110), 1), Ok(()));
    assert_eq!(w.transfer_finish(&p(1), &p(2), 100, Ok(Ok(8)), 2), Ok(8));
    let h = w.get_transaction_history();
    assert_eq!(h.len(), 2);
    assert_eq!(h[0].tx_type, TransactionType::Receive);
    assert_eq!(h[1].tx_type, TransactionType::Send);
    assert_eq!(h[1].to, text_of(&p(2)));
}

#[test]
fn send_refused_for_low_balance() {
    let mut w = Wallet::new();
    let r = w.transfer_check(&p(1), &p(2), 100, Ok(109), 1);
    assert_eq!(r, Err("Insufficient balance. Required: 110, Available: 109".to_string()));
    assert_eq!(w.get_transaction_history()[0].status, TransactionStatus::Failed);
    let r = w.transfer_check(&p(1), &p(2), 100, Err("down".to_string()), 1);
    assert_eq!(r, Err("Failed to check balance: down".to_string()));
    assert_eq!(w.get_transaction_history().len(), 1);
    let r = w.transfer_finish(&p(1), &p(2), 100, Ok(Err(TransferError::InsufficientFunds { balance: 3 })), 2);
    assert_eq!(r, Err("Insufficient funds. Balance: 3 satoshis".to_string()));
}

#[test]
fn testbtc_withdrawal_records() {
    let mut w = Wallet::new();
    let r = w.withdraw_testbtc_finish(&p(1), "tb1qabc".to_string(), 5000, Ok(Ok(17)), 3);
    assert_eq!(r, TextResult::Success("Withdrawal initiated. Block index: 17".to_string()));
    assert_eq!(w.get_transaction_history()[0].status, TransactionStatus::Pending);
    let r = w.withdraw_testbtc_finish(&p(1), "tb1qabc".to_string(), 5000, Ok(Err("too low".to_string())), 4);
    assert_eq!(r, TextResult::Failure("Withdrawal failed: too low".to_string()));
    assert_eq!(w.get_transaction_history()[0].status, TransactionStatus::Failed);
}

#[test]
fn icp_transfer_outcomes() {
    let mut w = Wallet::new();
    assert_eq!(w.transfer_icp_finish(&p(1), &p(2), 5, Ok(Ok(44)), 1), Ok(44));
    let r = w.transfer_icp_finish(&p(1), &p(2), 5, Ok(Err(TransferError::TooOld)), 2);
    assert_eq!(r, Err("ICP transfer failed: Transaction too old".to_string()));
    let r = w.transfer_icp_finish(&p(1), &p(2), 5, Err("x".to_string()), 3);
    assert_eq!(r, Err("Call failed: x".to_string()));
    assert_eq!(w.get_transaction_history().len(), 2);
}

#[test]
fn deposit_to_custody_scenario() {
    let minter = p(100);
    let backend = p(101);
    let a = p(1);
    let mut ledger = Ledger::new(vec![minter.clone()], Account::of(p(102)));
    let mut wallet = Wallet::new();
    // mint a whole token to A, with no fee
    ledger.mint(&minter, Account::of(a.clone()), 100_000_000).unwrap();
    assert_eq!(ledger.icrc1_balance_of(&Account::of(a.clone())), 100_000_000);
    // A deposits 1,000 into custody
    let personal = ledger.icrc1_balance_of(&Account::of(a.clone()));
    assert_eq!(deposit_to_custody_check(1000, Ok(personal)), Ok(()));
    let custody = Account { owner: backend.clone(), subaccount: Some(generate_subaccount_for_user(&a)) };
    let arg = TransferArg {
        from_subaccount: None,
        to: custody.clone(),
        amount: 1000,
        fee: Some(LEDGER_FEE),
        memo: None,
        created_at_time: Some(5),
    };
    let outcome = ledger.icrc1_transfer(&a, arg);
    assert_eq!(outcome, Ok(1));
    let custodial_after = ledger.icrc1_balance_of(&custody);
    let personal_after = ledger.icrc1_balance_of(&Account::of(a.clone()));
    let receipt = wallet
        .deposit_to_custody_finish(&a, 1000, Ok(outcome), Some(custodial_after), Some(personal_after), 6)
        .unwrap();
    assert_eq!(
        receipt,
        DepositReceipt {
            block_index: 1,
            amount_deposited: 1000,
            new_custodial_balance: 1000,
            remaining_personal_balance: 100_000_000 - 1010,
        }
    );
    // a deposit of 1,001 from a personal balance of 999 is refused
    assert_eq!(
        deposit_to_custody_check(1001, Ok(999)),
        Err("Insufficient personal balance. Balance: 999 satoshis, Needed: 1011 satoshis (including 10 satoshi fee)".to_string())
    );
    let poor = p(2);
    ledger.mint(&minter, Account::of(poor.clone()), 999).unwrap();
    let arg = TransferArg {
        from_subaccount: None,
        to: custody,
        amount: 1001,
        fee: Some(LEDGER_FEE),
        memo: None,
        created_at_time: None,
    };
    assert_eq!(ledger.icrc1_transfer(&poor, arg), Err(TransferError::InsufficientFunds { balance: 999 }));
}

#[test]
fn deposit_to_custody_failures_are_recorded() {
    let mut w = Wallet::new();
    let r = w.deposit_to_custody_finish(&p(1), 10, Ok(Err(TransferError::BadFee { expected_fee: 10 })), None, None, 1);
    assert_eq!(r, Err("Transfer failed: Bad fee. Expected: 10 satoshis".to_string()));
    let r = w.deposit_to_custody_finish(&p(1), 10, Err("gone".to_string()), None, None, 2);
    assert_eq!(r, Err("Failed to call transfer: gone".to_string()));
    let h = w.get_transaction_history();
    assert_eq!(h.len(), 2);
    assert!(h.iter().all(|t| t.status == TransactionStatus::Failed && t.to == "Custodial Wallet"));
    let r = w.deposit_to_custody_finish(&p(1), 10, Ok(Ok(3)), None, Some(5), 3).unwrap();
    assert_eq!(r.new_custodial_balance, 0);
    assert_eq!(r.remaining_personal_balance, 5);
    assert_eq!(deposit_to_custody_check(1, Err("e".to_string())), Err("Failed to check balance: e".to_string()));
}

#[test]
fn address_from_digest_takes_sixteen_bytes() {
    let digest: Vec<u8> = (0u8..32).collect();
    assert_eq!(
        cktestbtc_wallet::digest::address_from_digest(&digest),
        "tb1q000102030405060708090a0b0c0d0e0f"
    );
    let digest = vec![0xabu8; 16];
    assert_eq!(
        cktestbtc_wallet::digest::address_from_digest(&digest),
        "tb1qabababababababababababababababab"
    );
}
