//! The token ledger: balances, allowances, fees and minting.
//!
//! Every fee is burned: it leaves the payer's balance, is credited to nobody, and
//! the total supply drops by the same amount. So the total supply always equals
//! the sum of all balances.
use vstd::prelude::*;
use crate::account::{
    copy_opt_bytes, opt_bytes_view, Account, AllowanceArgs, Principal, principal_text_of,
};
use crate::table::{bal, moved, Amount, Table, TableKey};
use crate::text::join;

verus! {

/// The fixed fee of a transfer or an approval, in the smallest unit.
pub const TRANSFER_FEE: u64 = 10;

/// Number of decimals of the token.
pub const DECIMALS: u8 = 8;

/// An account seen as its owner's bytes and its optional sub-account.
pub type AccountView = (Seq<u8>, Option<Seq<u8>>);

/// An (owner, spender) pair of accounts.
pub type AllowanceKey = (AccountView, AccountView);

/// What an owner lets a spender take, and until when.
#[derive(Clone, Copy, Debug, PartialEq, Eq)]
pub struct Allowance {
    pub allowance: u64,
    pub expires_at: Option<u64>,
}

impl Amount for Allowance {
    open spec fn amount(&self) -> nat {
        self.allowance as nat
    }
}

#[derive(Clone, Debug, PartialEq, Eq)]
pub struct ApproveArgs {
    pub fee: Option<u64>,
    pub memo: Option<Vec<u8>>,
    pub from_subaccount: Option<Vec<u8>>,
    pub created_at_time: Option<u64>,
    pub amount: u64,
    pub expected_allowance: Option<u64>,
    pub expires_at: Option<u64>,
    pub spender: Account,
}

#[derive(Clone, Debug, PartialEq, Eq)]
pub enum ApproveError {
    GenericError { message: String, error_code: u64 },
    TemporarilyUnavailable,
    Duplicate { duplicate_of: u64 },
    BadFee { expected_fee: u64 },
    AllowanceChanged { current_allowance: u64 },
    CreatedInFuture { ledger_time: u64 },
    TooOld,
    Expired { ledger_time: u64 },
    InsufficientFunds { balance: u64 },
}

#[derive(Clone, Debug, PartialEq, Eq)]
pub struct TransferArg {
    pub from_subaccount: Option<Vec<u8>>,
    pub to: Account,
    pub amount: u64,
    pub fee: Option<u64>,
    pub memo: Option<Vec<u8>>,
    pub created_at_time: Option<u64>,
}

#[derive(Clone, Debug, PartialEq, Eq)]
pub enum TransferError {
    BadFee { expected_fee: u64 },
    BadBurn { min_burn_amount: u64 },
    InsufficientFunds { balance: u64 },
    TooOld,
    CreatedInFuture { ledger_time: u64 },
    TemporarilyUnavailable,
    Duplicate { duplicate_of: u64 },
    GenericError { error_code: u64, message: String },
}

#[derive(Clone, Debug, PartialEq, Eq)]
pub struct TransferFromArgs {
    pub spender_subaccount: Option<Vec<u8>>,
    pub from: Account,
    pub to: Account,
    pub amount: u64,
    pub fee: Option<u64>,
    pub memo: Option<Vec<u8>>,
    pub created_at_time: Option<u64>,
}

#[derive(Clone, Debug, PartialEq, Eq)]
pub enum TransferFromError {
    BadFee { expected_fee: u64 },
    BadBurn { min_burn_amount: u64 },
    InsufficientFunds { balance: u64 },
    InsufficientAllowance { allowance: u64 },
    TooOld,
    CreatedInFuture { ledger_time: u64 },
    Duplicate { duplicate_of: u64 },
    TemporarilyUnavailable,
    GenericError { error_code: u64, message: String },
}

#[derive(Clone, Debug, PartialEq, Eq)]
pub enum MetadataValue {
    Nat(u64),
    Int(i64),
    Text(String),
    Blob(Vec<u8>),
}

#[derive(Clone, Debug, PartialEq, Eq)]
pub struct StandardRecord {
    pub name: String,
    pub url: String,
}

/// Allowance of `k` in `m`; an absent pair has none.
pub open spec fn allowance_in(m: Map<AllowanceKey, Allowance>, k: AllowanceKey) -> nat {
    if m.contains_key(k) {
        m[k].allowance as nat
    } else {
        0
    }
}

/// The effective fee of a request: the given one, or the fixed fee.
pub open spec fn effective_fee(fee: Option<u64>) -> u64 {
    match fee {
        Some(f) => f,
        None => TRANSFER_FEE,
    }
}

/// Text of the error that refuses a mint to `caller`.
pub open spec fn mint_denied_text(caller: Seq<u8>) -> Seq<char> {
    "Only authorized minters can mint tokens. Caller: "@ + principal_text_of(caller)
}

/// The text of the error that refuses a mint beyond the largest supply.
pub open spec fn supply_overflow_text() -> Seq<char> {
    "Minting would exceed the largest representable supply"@
}

/// Whether `r` is a generic error with this code and text.
pub open spec fn is_generic_error(r: Result<u64, TransferError>, code: u64, text: Seq<char>) -> bool {
    match r {
        Err(TransferError::GenericError { error_code, message }) => error_code == code && message@
            == text,
        _ => false,
    }
}

/// The token ledger: balances and allowances by account, the total supply,
/// the next block index, and the identities allowed to mint.
pub struct Ledger {
    balances: Table<Account, u64>,
    allowances: Table<AllowanceArgs, Allowance>,
    total_supply: u64,
    next_block: u64,
    minters: Vec<Principal>,
    minting_account: Account,
}

impl Ledger {
    /// Keys are unique in both stores, and the total supply is the sum of all
    /// balances.
    pub closed spec fn wf(&self) -> bool {
        &&& self.balances.wf()
        &&& self.allowances.wf()
        &&& self.balances.total() == self.total_supply as nat
    }

    /// Balance of every account that has an entry.
    pub closed spec fn balances(&self) -> Map<AccountView, u64> {
        self.balances.view()
    }

    /// Balance of `a`; zero when it has no entry.
    pub open spec fn balance(&self, a: AccountView) -> nat {
        bal(self.balances(), a)
    }

    /// Sum of all balances.
    pub closed spec fn circulating(&self) -> nat {
        self.balances.total()
    }

    /// Allowance of every (owner, spender) pair that has an entry.
    pub closed spec fn allowances(&self) -> Map<AllowanceKey, Allowance> {
        self.allowances.view()
    }

    /// The total supply.
    pub closed spec fn supply(&self) -> nat {
        self.total_supply as nat
    }

    /// The index that the next state-changing call receives.
    pub closed spec fn next_block(&self) -> u64 {
        self.next_block
    }

    /// Identities allowed to mint.
    pub closed spec fn minters(&self) -> Seq<Seq<u8>> {
        self.minters@.map_values(|p: Principal| p@)
    }

    /// The account reported as the minting account.
    pub closed spec fn minting_account_view(&self) -> AccountView {
        self.minting_account@
    }

    /// Sum of all balances equals the total supply.
    pub proof fn lemma_supply(&self)
        requires
            self.wf(),
        ensures
            self.circulating() == self.supply(),
    {
    }

    /// An empty ledger: no balances, no allowances, block index zero.
    pub fn new(minters: Vec<Principal>, minting_account: Account) -> (r: Ledger)
        ensures
            r.wf(),
            r.balances() == Map::<AccountView, u64>::empty(),
            r.allowances() == Map::<AllowanceKey, Allowance>::empty(),
            r.supply() == 0,
            r.circulating() == 0,
            r.next_block() == 0,
            r.minters() == minters@.map_values(|p: Principal| p@),
            r.minting_account_view() == minting_account@,
    {
        Ledger {
            balances: Table::new(),
            allowances: Table::new(),
            total_supply: 0,
            next_block: 0,
            minters,
            minting_account,
        }
    }

    /// Name of the token.
    pub fn icrc1_name(&self) -> (r: String)
        ensures
            r@ == "ckTestBTC"@,
    {
        String::from_str("ckTestBTC")
    }

    /// Symbol of the token.
    pub fn icrc1_symbol(&self) -> (r: String)
        ensures
            r@ == "ckTestBTC"@,
    {
        String::from_str("ckTestBTC")
    }

    /// Decimals of the token.
    pub fn icrc1_decimals(&self) -> (r: u8)
        ensures
            r == DECIMALS,
    {
        DECIMALS
    }

    /// The fixed fee.
    pub fn icrc1_fee(&self) -> (r: u64)
        ensures
            r == TRANSFER_FEE,
    {
        TRANSFER_FEE
    }

    /// The total supply: minted tokens less burned fees.
    pub fn icrc1_total_supply(&self) -> (r: u64)
        ensures
            r == self.supply(),
    {
        self.total_supply
    }

    /// The minting account.
    pub fn icrc1_minting_account(&self) -> (r: Option<Account>)
        ensures
            r is Some && r.unwrap()@ == self.minting_account_view(),
    {
        Some(self.minting_account.copy_key())
    }

    /// Name, symbol, decimals and fee, under their standard keys.
    pub fn icrc1_metadata(&self) -> (r: Vec<(String, MetadataValue)>)
        ensures
            r@.len() == 4,
            r@[0].0@ == "icrc1:name"@,
            r@[0].1 matches MetadataValue::Text(t) && t@ == "ckTestBTC"@,
            r@[1].0@ == "icrc1:symbol"@,
            r@[1].1 matches MetadataValue::Text(t) && t@ == "ckTestBTC"@,
            r@[2].0@ == "icrc1:decimals"@,
            r@[2].1 == MetadataValue::Nat(DECIMALS as u64),
            r@[3].0@ == "icrc1:fee"@,
            r@[3].1 == MetadataValue::Nat(TRANSFER_FEE),
    {
        let mut r: Vec<(String, MetadataValue)> = Vec::new();
        r.push((String::from_str("icrc1:name"), MetadataValue::Text(String::from_str("ckTestBTC"))));
        r.push(
            (String::from_str("icrc1:symbol"), MetadataValue::Text(String::from_str("ckTestBTC"))),
        );
        r.push((String::from_str("icrc1:decimals"), MetadataValue::Nat(DECIMALS as u64)));
        r.push((String::from_str("icrc1:fee"), MetadataValue::Nat(TRANSFER_FEE)));
        r
    }

    /// The two token standards that the ledger follows.
    pub fn icrc1_supported_standards(&self) -> (r: Vec<StandardRecord>)
        ensures
            r@.len() == 2,
            r@[0].name@ == "ICRC-1"@,
            r@[0].url@ == "https://github.com/dfinity/ICRC-1"@,
            r@[1].name@ == "ICRC-2"@,
            r@[1].url@ == "https://github.com/dfinity/ICRC-1/tree/main/standards/ICRC-2"@,
    {
        let mut r: Vec<StandardRecord> = Vec::new();
        r.push(
            StandardRecord {
                name: String::from_str("ICRC-1"),
                url: String::from_str("https://github.com/dfinity/ICRC-1"),
            },
        );
        r.push(
            StandardRecord {
                name: String::from_str("ICRC-2"),
                url: String::from_str("https://github.com/dfinity/ICRC-1/tree/main/standards/ICRC-2"),
            },
        );
        r
    }

    /// Balance of `account`; zero for an unknown account.
    pub fn icrc1_balance_of(&self, account: &Account) -> (r: u64)
        requires
            self.wf(),
        ensures
            r == self.balance(account@),
    {
        match self.balances.get(account) {
            Some(b) => b,
            None => 0,
        }
    }

    /// Current allowance of `args.spender` over `args.account`; none is zero
    /// with no expiry.
    pub fn icrc2_allowance(&self, args: &AllowanceArgs) -> (r: Allowance)
        requires
            self.wf(),
        ensures
            r == (if self.allowances().contains_key(args@) {
                self.allowances()[args@]
            } else {
                Allowance { allowance: 0, expires_at: None }
            }),
    {
        match self.allowances.get(args) {
            Some(a) => a,
            None => Allowance { allowance: 0, expires_at: None },
        }
    }

    /// Hands out the next block index.
    fn take_block(&mut self) -> (r: u64)
        requires
            old(self).next_block < u64::MAX,
        ensures
            r == old(self).next_block,
            final(self).next_block == old(self).next_block + 1,
            final(self).balances == old(self).balances,
            final(self).allowances == old(self).allowances,
            final(self).total_supply == old(self).total_supply,
            final(self).minters == old(self).minters,
            final(self).minting_account == old(self).minting_account,
    {
        let r = self.next_block;
        self.next_block = self.next_block + 1;
        r
    }

    /// Takes `amount + fee` from `from`, gives `amount` to `to`, burns `fee`.
    fn move_funds(&mut self, from: Account, to: Account, amount: u64, fee: u64)
        requires
            old(self).wf(),
            old(self).balance(from@) >= amount + fee,
        ensures
            final(self).wf(),
            final(self).balances() == moved(
                old(self).balances(),
                from@,
                to@,
                (amount + fee) as nat,
                amount as nat,
            ),
            final(self).circulating() + fee == old(self).circulating(),
            final(self).total_supply + fee == old(self).total_supply,
            final(self).next_block == old(self).next_block,
            final(self).allowances == old(self).allowances,
            final(self).minters == old(self).minters,
            final(self).minting_account == old(self).minting_account,
    {
        let ghost m0 = self.balances.view();
        let b = match self.balances.get(&from) {
            Some(b) => b,
            None => 0,
        };
        let debit: u64 = amount + fee;
        self.balances.set(from, b - debit);
        let ghost m1 = self.balances.view();
        proof {
            self.balances.lemma_amount_le_total(to@);
        }
        let t = match self.balances.get(&to) {
            Some(t) => t,
            None => 0,
        };
        self.balances.set(to, t + amount);
        self.total_supply = self.total_supply - fee;
    }

    /// Sends `args.amount` from the caller's account to `args.to`, burning the
    /// fixed fee.
    pub fn icrc1_transfer(&mut self, caller: &Principal, args: TransferArg) -> (r: Result<
        u64,
        TransferError,
    >)
        requires
            old(self).wf(),
        ensures
            final(self).wf(),
            transfer_outcome(*old(self), *final(self), caller@, args, r),
    {
        let fee = match args.fee {
            Some(f) => f,
            None => TRANSFER_FEE,
        };
        if fee != TRANSFER_FEE {
            return Err(TransferError::BadFee { expected_fee: TRANSFER_FEE });
        }
        let from = Account {
            owner: caller.copy_key(),
            subaccount: copy_opt_bytes(&args.from_subaccount),
        };
        let balance = self.icrc1_balance_of(&from);
        if (balance as u128) < (args.amount as u128) + (fee as u128) {
            return Err(TransferError::InsufficientFunds { balance });
        }
        if self.next_block == u64::MAX {
            return Err(TransferError::TemporarilyUnavailable);
        }
        self.move_funds(from, args.to, args.amount, fee);
        Ok(self.take_block())
    }

    /// Sets (overwrites) the allowance of `args.spender` over the caller's
    /// account, paying the fixed fee.
    pub fn icrc2_approve(&mut self, caller: &Principal, args: ApproveArgs) -> (r: Result<
        u64,
        ApproveError,
    >)
        requires
            old(self).wf(),
        ensures
            final(self).wf(),
            ({
                let from = (caller@, opt_bytes_view(&args.from_subaccount));
                let fee = effective_fee(args.fee);
                if fee != TRANSFER_FEE {
                    r == Err::<u64, ApproveError>(ApproveError::BadFee { expected_fee: TRANSFER_FEE })
                        && *final(self) == *old(self)
                } else if old(self).balance(from) < fee {
                    r == Err::<u64, ApproveError>(
                        ApproveError::InsufficientFunds { balance: old(self).balance(from) as u64 },
                    ) && *final(self) == *old(self)
                } else if old(self).next_block() == u64::MAX {
                    r == Err::<u64, ApproveError>(ApproveError::TemporarilyUnavailable)
                        && *final(self) == *old(self)
                } else {
                    &&& r == Ok::<u64, ApproveError>(old(self).next_block())
                    &&& final(self).allowances() == old(self).allowances().insert(
                        (from, args.spender@),
                        Allowance { allowance: args.amount, expires_at: args.expires_at },
                    )
                    &&& final(self).balances() == old(self).balances().insert(
                        from,
                        (old(self).balance(from) - fee) as u64,
                    )
                    &&& final(self).circulating() + fee == old(self).circulating()
                    &&& final(self).supply() + fee == old(self).supply()
                    &&& final(self).next_block() == old(self).next_block() + 1
                    &&& final(self).minters() == old(self).minters()
                }
            }),
    {
        let fee = match args.fee {
            Some(f) => f,
            None => TRANSFER_FEE,
        };
        if fee != TRANSFER_FEE {
            return Err(ApproveError::BadFee { expected_fee: TRANSFER_FEE });
        }
        let from = Account {
            owner: caller.copy_key(),
            subaccount: copy_opt_bytes(&args.from_subaccount),
        };
        let balance = self.icrc1_balance_of(&from);
        if balance < fee {
            return Err(ApproveError::InsufficientFunds { balance });
        }
        if self.next_block == u64::MAX {
            return Err(ApproveError::TemporarilyUnavailable);
        }
        let key = AllowanceArgs { account: from.copy_key(), spender: args.spender };
        self.allowances.set(key, Allowance { allowance: args.amount, expires_at: args.expires_at });
        self.balances.set(from, balance - fee);
        self.total_supply = self.total_supply - fee;
        Ok(self.take_block())
    }

    /// Moves `args.amount` from `args.from` to `args.to` on behalf of the
    /// caller, within the allowance that `args.from` granted; the fee is burned
    /// and both amount and fee come out of the allowance.
    pub fn icrc2_transfer_from(&mut self, caller: &Principal, args: TransferFromArgs) -> (r:
        Result<u64, TransferFromError>)
        requires
            old(self).wf(),
        ensures
            final(self).wf(),
            transfer_from_outcome(*old(self), *final(self), caller@, args, r),
    {
        let fee = match args.fee {
            Some(f) => f,
            None => TRANSFER_FEE,
        };
        let key = AllowanceArgs {
            account: args.from.copy_key(),
            spender: Account {
                owner: caller.copy_key(),
                subaccount: copy_opt_bytes(&args.spender_subaccount),
            },
        };
        let current = self.icrc2_allowance(&key);
        let need: u128 = (args.amount as u128) + (fee as u128);
        if (current.allowance as u128) < need {
            return Err(TransferFromError::InsufficientAllowance { allowance: current.allowance });
        }
        let balance = self.icrc1_balance_of(&args.from);
        if (balance as u128) < need {
            return Err(TransferFromError::InsufficientFunds { balance });
        }
        if self.next_block == u64::MAX {
            return Err(TransferFromError::TemporarilyUnavailable);
        }
        self.move_funds(args.from, args.to, args.amount, fee);
        let left: u64 = current.allowance - (args.amount + fee);
        if left == 0 {
            self.allowances.remove(&key);
        } else {
            self.allowances.set(key, Allowance { allowance: left, expires_at: current.expires_at });
        }
        Ok(self.take_block())
    }

    /// Whether `p` may mint.
    fn is_minter(&self, p: &Principal) -> (r: bool)
        ensures
            r == self.minters().contains(p@),
    {
        let mut i: usize = 0;
        while i < self.minters.len()
            invariant
                i <= self.minters@.len(),
                forall|j: int| 0 <= j < i ==> self.minters@[j]@ != p@,
            decreases self.minters@.len() - i,
        {
            if self.minters[i].same_key(p) {
                proof {
                    assert(self.minters()[i as int] == p@);
                }
                return true;
            }
            i = i + 1;
        }
        proof {
            if self.minters().contains(p@) {
                let j = choose|j: int| 0 <= j < self.minters().len() && self.minters()[j] == p@;
                assert(self.minters@[j]@ == p@);
            }
        }
        false
    }

    /// Creates `amount` new tokens in `to`; only for the identities allowed to
    /// mint, and no fee is charged.
    pub fn mint(&mut self, caller: &Principal, to: Account, amount: u64) -> (r: Result<
        u64,
        TransferError,
    >)
        requires
            old(self).wf(),
            caller.wf(),
        ensures
            final(self).wf(),
            !old(self).minters().contains(caller@) ==> is_generic_error(
                r,
                1,
                mint_denied_text(caller@),
            ) && *final(self) == *old(self),
            old(self).minters().contains(caller@) && old(self).supply() + amount > u64::MAX
                ==> is_generic_error(r, 2, supply_overflow_text()) && *final(self) == *old(self),
            old(self).minters().contains(caller@) && old(self).supply() + amount <= u64::MAX
                && old(self).next_block() == u64::MAX ==> r == Err::<u64, TransferError>(
                TransferError::TemporarilyUnavailable,
            ) && *final(self) == *old(self),
            old(self).minters().contains(caller@) && old(self).supply() + amount <= u64::MAX
                && old(self).next_block() < u64::MAX ==> {
                &&& r == Ok::<u64, TransferError>(old(self).next_block())
                &&& final(self).balances() == old(self).balances().insert(
                    to@,
                    (old(self).balance(to@) + amount) as u64,
                )
                &&& final(self).circulating() == old(self).circulating() + amount
                &&& final(self).supply() == old(self).supply() + amount
                &&& final(self).allowances() == old(self).allowances()
                &&& final(self).next_block() == old(self).next_block() + 1
                &&& final(self).minters() == old(self).minters()
            },
    {
        if !self.is_minter(caller) {
            let text = caller.to_text();
            let message = join("Only authorized minters can mint tokens. Caller: ", text.as_str());
            return Err(TransferError::GenericError { error_code: 1, message });
        }
        if self.total_supply > u64::MAX - amount {
            let message = String::from_str("Minting would exceed the largest representable supply");
            return Err(TransferError::GenericError { error_code: 2, message });
        }
        if self.next_block == u64::MAX {
            return Err(TransferError::TemporarilyUnavailable);
        }
        proof {
            self.balances.lemma_amount_le_total(to@);
        }
        let b = self.icrc1_balance_of(&to);
        self.balances.set(to, b + amount);
        self.total_supply = self.total_supply + amount;
        Ok(self.take_block())
    }
}


/// What a transfer by `caller` does: its result, and the ledger after it.
pub open spec fn transfer_outcome(pre: Ledger, post: Ledger, caller: Seq<u8>, args: TransferArg, r: Result<u64, TransferError>) -> bool {
    let from = (caller, opt_bytes_view(&args.from_subaccount));
    let fee = effective_fee(args.fee);
    if fee != TRANSFER_FEE {
        r == Err::<u64, TransferError>(
            TransferError::BadFee { expected_fee: TRANSFER_FEE },
        ) && post == pre
    } else if pre.balance(from) < args.amount + fee {
        r == Err::<u64, TransferError>(
            TransferError::InsufficientFunds { balance: pre.balance(from) as u64 },
        ) && post == pre
    } else if pre.next_block() == u64::MAX {
        r == Err::<u64, TransferError>(TransferError::TemporarilyUnavailable)
            && post == pre
    } else {
        &&& r == Ok::<u64, TransferError>(pre.next_block())
        &&& post.balances() == moved(
            pre.balances(),
            from,
            args.to@,
            (args.amount + fee) as nat,
            args.amount as nat,
        )
        &&& post.circulating() + fee == pre.circulating()
        &&& post.supply() + fee == pre.supply()
        &&& post.allowances() == pre.allowances()
        &&& post.next_block() == pre.next_block() + 1
        &&& post.minters() == pre.minters()
    }
}

/// What a delegated transfer by `caller` does: its result, and the ledger after it.
pub open spec fn transfer_from_outcome(pre: Ledger, post: Ledger, caller: Seq<u8>, args: TransferFromArgs, r: Result<u64, TransferFromError>) -> bool {
    let spender = (caller, opt_bytes_view(&args.spender_subaccount));
    let key = (args.from@, spender);
    let fee = effective_fee(args.fee);
    let need = args.amount + fee;
    let granted = allowance_in(pre.allowances(), key);
    if granted < need {
        r == Err::<u64, TransferFromError>(
            TransferFromError::InsufficientAllowance { allowance: granted as u64 },
        ) && post == pre
    } else if pre.balance(args.from@) < need {
        r == Err::<u64, TransferFromError>(
            TransferFromError::InsufficientFunds {
                balance: pre.balance(args.from@) as u64,
            },
        ) && post == pre
    } else if pre.next_block() == u64::MAX {
        r == Err::<u64, TransferFromError>(TransferFromError::TemporarilyUnavailable)
            && post == pre
    } else {
        &&& r == Ok::<u64, TransferFromError>(pre.next_block())
        &&& post.balances() == moved(
            pre.balances(),
            args.from@,
            args.to@,
            need as nat,
            args.amount as nat,
        )
        &&& post.allowances() == (if granted == need {
            pre.allowances().remove(key)
        } else {
            pre.allowances().insert(
                key,
                Allowance {
                    allowance: (granted - need) as u64,
                    expires_at: pre.allowances()[key].expires_at,
                },
            )
        })
        &&& allowance_in(post.allowances(), key) + need == granted
        &&& post.circulating() + fee == pre.circulating()
        &&& post.supply() + fee == pre.supply()
        &&& post.next_block() == pre.next_block() + 1
        &&& post.minters() == pre.minters()
    }
}

/// The allowance key that a delegated transfer by `caller` draws on.
pub open spec fn spender_key(caller: Seq<u8>, args: TransferFromArgs) -> AllowanceKey {
    (args.from@, (caller, opt_bytes_view(&args.spender_subaccount)))
}

/// A successful transfer or delegated transfer leads from `pre` to `post` and
/// its fee was `fee`.
pub open spec fn burning_step(pre: Ledger, post: Ledger, fee: nat) -> bool {
    ||| exists|caller: Seq<u8>, args: TransferArg, b: u64|
        #[trigger] transfer_outcome(pre, post, caller, args, Ok::<u64, TransferError>(b)) && fee
            == effective_fee(args.fee)
    ||| exists|caller: Seq<u8>, args: TransferFromArgs, b: u64|
        #[trigger] transfer_from_outcome(pre, post, caller, args, Ok::<u64, TransferFromError>(b))
            && fee == effective_fee(args.fee)
}

/// Sum of a sequence of amounts.
pub open spec fn sum_of(s: Seq<nat>) -> nat
    decreases s.len(),
{
    if s.len() == 0 {
        0
    } else {
        sum_of(s.drop_last()) + s.last()
    }
}

proof fn lemma_step_burns(pre: Ledger, post: Ledger, fee: nat)
    requires
        burning_step(pre, post, fee),
    ensures
        post.circulating() + fee == pre.circulating(),
{
    if exists|caller: Seq<u8>, args: TransferArg, b: u64|
        #[trigger] transfer_outcome(pre, post, caller, args, Ok::<u64, TransferError>(b)) && fee
            == effective_fee(args.fee) {
        let (c, a, b) = choose|caller: Seq<u8>, args: TransferArg, b: u64|
            #[trigger] transfer_outcome(pre, post, caller, args, Ok::<u64, TransferError>(b)) && fee
                == effective_fee(args.fee);
        assert(transfer_outcome(pre, post, c, a, Ok::<u64, TransferError>(b)));
    } else {
        let (c, a, b) = choose|caller: Seq<u8>, args: TransferFromArgs, b: u64|
            #[trigger] transfer_from_outcome(pre, post, caller, args, Ok::<u64, TransferFromError>(b))
                && fee == effective_fee(args.fee);
        assert(transfer_from_outcome(pre, post, c, a, Ok::<u64, TransferFromError>(b)));
    }
}

/// Conservation: along any sequence of successful transfers and delegated
/// transfers, the sum of all balances at the end plus the fees burned on the
/// way equals the sum of all balances at the start.
pub proof fn law_conservation(states: Seq<Ledger>, fees: Seq<nat>)
    requires
        states.len() == fees.len() + 1,
        forall|i: int| 0 <= i < fees.len() ==> #[trigger] burning_step(states[i], states[i + 1], fees[i]),
    ensures
        states.last().circulating() + sum_of(fees) == states[0].circulating(),
    decreases fees.len(),
{
    if fees.len() > 0 {
        let n = fees.len() - 1;
        let s0 = states.drop_last();
        let f0 = fees.drop_last();
        assert forall|i: int| 0 <= i < f0.len() implies #[trigger] burning_step(s0[i], s0[i + 1], f0[i]) by {
            assert(burning_step(states[i], states[i + 1], fees[i]));
        }
        law_conservation(s0, f0);
        assert(burning_step(states[n], states[n + 1], fees[n]));
        lemma_step_burns(states[n], states[n + 1], fees[n]);
    }
}

/// Allowance use: a successful delegated transfer lowers the allowance it draws
/// on by exactly the amount plus the fee; the same request again, once the
/// remainder no longer covers amount plus fee, fails for want of allowance and
/// changes nothing.
pub proof fn law_allowance_use(
    l0: Ledger,
    l1: Ledger,
    l2: Ledger,
    caller: Seq<u8>,
    args: TransferFromArgs,
    block: u64,
    r2: Result<u64, TransferFromError>,
)
    requires
        transfer_from_outcome(l0, l1, caller, args, Ok::<u64, TransferFromError>(block)),
        transfer_from_outcome(l1, l2, caller, args, r2),
    ensures
        allowance_in(l1.allowances(), spender_key(caller, args)) + args.amount + effective_fee(
            args.fee,
        ) == allowance_in(l0.allowances(), spender_key(caller, args)),
        allowance_in(l1.allowances(), spender_key(caller, args)) < args.amount + effective_fee(
            args.fee,
        ) ==> r2 == Err::<u64, TransferFromError>(
            TransferFromError::InsufficientAllowance {
                allowance: allowance_in(l1.allowances(), spender_key(caller, args)) as u64,
            },
        ) && l2 == l1,
{
}

} // verus!
