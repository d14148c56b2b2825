use cktestbtc_wallet::account::{Account, Principal};
use cktestbtc_wallet::ledger::{TransferArg, TransferError};
use cktestbtc_wallet::local_token::LocalToken;

fn p(b: u8) -> Principal {
    Principal::from_bytes(vec![b, 2])
}

#[test]
fn local_token_transfer_and_mint() {
    let mut t = LocalToken::new();
    assert_eq!(t.mint(Account::of(p(1)), 500), Ok(1));
    let arg = TransferArg {
        from_subaccount: None,
        to: Account { owner: p(2), subaccount: Some(vec![1]) },
        amount: 200,
        fee: None,
        memo: None,
        created_at_time: None,
    };
    assert_eq!(t.icrc1_transfer(&p(1), arg.clone()), Ok(2));
    assert_eq!(t.icrc1_balance_of(&Account::of(p(1))), 300);
    // sub-accounts are not told apart
    assert_eq!(t.icrc1_balance_of(&Account::of(p(2))), 200);
    let mut big = arg;
    big.amount = 301;
    assert_eq!(t.icrc1_transfer(&p(1), big), Err(TransferError::InsufficientFunds { balance: 300 }));
    assert_eq!(t.icrc1_name(), "Local Test Bitcoin");
}
