use cktestbtc_wallet::account::{Account, Principal};
use cktestbtc_wallet::minter::{
    EstimateWithdrawalFeeArgs, GetBtcAddressArgs, GetKnownUtxosArgs, Minter, RetrieveBtcArgs,
    RetrieveBtcError, RetrieveBtcOk, RetrieveBtcStatus, RetrieveBtcStatusArgs, UpdateBalanceArgs,
    UpdateBalanceError, Utxo, UtxoOutpoint, UtxoStatus,
};
use sha2::Digest;

fn p(b: u8) -> Principal {
    Principal::from_bytes(vec![b, 3])
}

fn utxo(value: u64, vout: u32) -> Utxo {
    Utxo { outpoint: UtxoOutpoint { txid: vec![1, 2, 3], vout }, value, height: 10 }
}

#[test]
fn retrieve_btc_checks_address_and_amount() {
    let mut m = Minter::new(p(9));
    let r = m.retrieve_btc(RetrieveBtcArgs { address: "bc1qxx".to_string(), amount: 5000 });
    assert_eq!(r, Err(RetrieveBtcError::MalformedAddress("Invalid TestBTC address format".to_string())));
    let r = m.retrieve_btc(RetrieveBtcArgs { address: "tb1qxx".to_string(), amount: 999 });
    assert_eq!(r, Err(RetrieveBtcError::AmountTooLow(1000)));
    let r = m.retrieve_btc(RetrieveBtcArgs { address: "tb1qxx".to_string(), amount: 1000 });
    assert_eq!(r, Ok(RetrieveBtcOk { block_index: 1 }));
    assert_eq!(m.retrieve_btc_status(RetrieveBtcStatusArgs { block_index: 1 }), RetrieveBtcStatus::Pending);
    assert_eq!(m.retrieve_btc_status(RetrieveBtcStatusArgs { block_index: 2 }), RetrieveBtcStatus::Unknown);
    m.update_withdrawal_status(1, RetrieveBtcStatus::Confirmed { txid: vec![5] });
    assert_eq!(
        m.retrieve_btc_status(RetrieveBtcStatusArgs { block_index: 1 }),
        RetrieveBtcStatus::Confirmed { txid: vec![5] }
    );
}

#[test]
fn update_balance_mints_large_deposits() {
    let mut m = Minter::new(p(9));
    let acct = Account::of(p(1));
    let args = || UpdateBalanceArgs { owner: Some(p(1)), subaccount: None };
    assert_eq!(
        m.update_balance(&p(5), args()),
        Err(UpdateBalanceError::NoNewUtxos { current_confirmations: Some(6), required_confirmations: 6 })
    );
    m.add_pending_utxo(acct.clone(), utxo(500, 0));
    m.add_pending_utxo(Account::of(p(2)), utxo(5000, 1));
    m.add_pending_utxo(acct.clone(), utxo(2000, 2));
    let r = m.update_balance(&p(5), args()).unwrap();
    assert_eq!(
        r,
        vec![
            UtxoStatus::ValueTooSmall(utxo(500, 0)),
            UtxoStatus::Minted { block_index: 1, minted_amount: 1990, utxo: utxo(2000, 2) },
        ]
    );
    let known = m.get_known_utxos(&p(5), GetKnownUtxosArgs { owner: Some(p(1)), subaccount: None });
    assert_eq!(known, vec![utxo(2000, 2)]);
    assert!(m.update_balance(&p(5), args()).is_err());
    // the other account's deposit is still pending; the caller is the owner by default
    let r = m.update_balance(&p(2), UpdateBalanceArgs { owner: None, subaccount: None }).unwrap();
    assert_eq!(r, vec![UtxoStatus::Minted { block_index: 2, minted_amount: 4990, utxo: utxo(5000, 1) }]);
}

#[test]
fn simulated_deposit_has_hashed_txid() {
    let mut m = Minter::new(p(9));
    let acct = Account::of(p(1));
    m.simulate_testbtc_deposit(acct, 3000, 77);
    let r = m.update_balance(&p(1), UpdateBalanceArgs { owner: None, subaccount: None }).unwrap();
    let mut h = sha2::Sha256::new();
    h.update(&p(1).bytes);
    h.update(3000u64.to_le_bytes());
    h.update(77u64.to_le_bytes());
    let txid = h.finalize().to_vec();
    let expected = Utxo { outpoint: UtxoOutpoint { txid, vout: 0 }, value: 3000, height: 2_500_000 };
    assert_eq!(r, vec![UtxoStatus::Minted { block_index: 1, minted_amount: 2990, utxo: expected }]);
}

#[test]
fn minter_fees_and_accounts() {
    let m = Minter::new(p(9));
    let f = m.estimate_withdrawal_fee(EstimateWithdrawalFeeArgs { amount: Some(1) });
    assert_eq!(f.bitcoin_fee, 5000);
    assert_eq!(f.minter_fee, 100);
    assert_eq!(m.get_deposit_fee(), 10);
    assert_eq!(m.get_withdrawal_account(), Account::of(p(9)));
    let addr = m.get_btc_address(&p(5), GetBtcAddressArgs { owner: Some(p(1)), subaccount: Some(vec![4]) });
    let mut h = sha2::Sha256::new();
    h.update(&p(1).bytes);
    h.update([4u8]);
    let d = h.finalize();
    assert_eq!(addr, format!("tb1q{}", &hex::encode(&d[..20])[..32]));
}
