//! A simpler local test token: balances by owner alone, no fee, open minting.
use vstd::prelude::*;
use crate::account::{Account, Principal};
use crate::ledger::{TransferArg, TransferError};
use crate::table::{bal, moved, sum_u64, Table, TableKey};

verus! {

/// The arguments of a transfer on the local token.
pub type TransferArgs = TransferArg;

/// Text of the error that refuses a mint beyond the largest supply.
pub open spec fn local_overflow_text() -> Seq<char> {
    "Minting would exceed the largest representable supply"@
}

/// Balances by owner and a transaction counter.
pub struct LocalToken {
    balances: Table<Principal, u64>,
    counter: u64,
}

impl LocalToken {
    /// Owners are unique, and the sum of balances fits in `u64`.
    pub closed spec fn wf(&self) -> bool {
        &&& self.balances.wf()
        &&& self.balances.total() <= u64::MAX
    }

    /// Balance of every owner that has an entry.
    pub closed spec fn balances(&self) -> Map<Seq<u8>, u64> {
        self.balances.view()
    }

    /// Sum of all balances.
    pub closed spec fn circulating(&self) -> nat {
        self.balances.total()
    }

    /// The last transaction number handed out.
    pub closed spec fn counter(&self) -> u64 {
        self.counter
    }

    /// A token with no balances.
    pub fn new() -> (r: LocalToken)
        ensures
            r.wf(),
            r.balances() == Map::<Seq<u8>, u64>::empty(),
            r.counter() == 0,
    {
        LocalToken { balances: Table::new(), counter: 0 }
    }

    /// Name of the token.
    pub fn icrc1_name(&self) -> (r: String)
        ensures
            r@ == "Local Test Bitcoin"@,
    {
        String::from_str("Local Test Bitcoin")
    }

    /// Symbol of the token.
    pub fn icrc1_symbol(&self) -> (r: String)
        ensures
            r@ == "ckTestBTC"@,
    {
        String::from_str("ckTestBTC")
    }

    /// Decimals of the token.
    pub fn icrc1_decimals(&self) -> (r: u8)
        ensures
            r == 8,
    {
        8
    }

    /// Balance of the owner of `account` (sub-accounts are not told apart).
    pub fn icrc1_balance_of(&self, account: &Account) -> (r: u64)
        requires
            self.wf(),
        ensures
            r == bal(self.balances(), account.owner@),
    {
        match self.balances.get(&account.owner) {
            Some(b) => b,
            None => 0,
        }
    }

    /// Moves `args.amount` from the caller to the owner of `args.to`, with no
    /// fee; returns the new transaction number.
    pub fn icrc1_transfer(&mut self, caller: &Principal, args: TransferArgs) -> (r: Result<
        u64,
        TransferError,
    >)
        requires
            old(self).wf(),
        ensures
            final(self).wf(),
            bal(old(self).balances(), caller@) < args.amount ==> r == Err::<u64, TransferError>(
                TransferError::InsufficientFunds {
                    balance: bal(old(self).balances(), caller@) as u64,
                },
            ) && *final(self) == *old(self),
            bal(old(self).balances(), caller@) >= args.amount && old(self).counter() == u64::MAX
                ==> r == Err::<u64, TransferError>(TransferError::TemporarilyUnavailable) && *final(self)
                == *old(self),
            bal(old(self).balances(), caller@) >= args.amount && old(self).counter() < u64::MAX
                ==> {
                &&& r == Ok::<u64, TransferError>((old(self).counter() + 1) as u64)
                &&& final(self).counter() == old(self).counter() + 1
                &&& final(self).balances() == moved(
                    old(self).balances(),
                    caller@,
                    args.to.owner@,
                    args.amount as nat,
                    args.amount as nat,
                )
                &&& final(self).circulating() == old(self).circulating()
            },
    {
        let balance = match self.balances.get(caller) {
            Some(b) => b,
            None => 0,
        };
        if balance < args.amount {
            return Err(TransferError::InsufficientFunds { balance });
        }
        if self.counter == u64::MAX {
            return Err(TransferError::TemporarilyUnavailable);
        }
        self.balances.set(caller.copy_key(), balance - args.amount);
        proof {
            self.balances.lemma_amount_le_total(args.to.owner@);
        }
        let to_balance = match self.balances.get(&args.to.owner) {
            Some(b) => b,
            None => 0,
        };
        self.balances.set(args.to.owner, to_balance + args.amount);
        self.counter = self.counter + 1;
        Ok(self.counter)
    }

    /// Adds `amount` to the owner of `account`; returns the new transaction
    /// number. Refused when the sum of all balances would pass `u64::MAX`.
    pub fn mint(&mut self, account: Account, amount: u64) -> (r: Result<u64, TransferError>)
        requires
            old(self).wf(),
        ensures
            final(self).wf(),
            old(self).circulating() + amount > u64::MAX ==> (r matches Err(
                TransferError::GenericError { error_code, message },
            ) && error_code == 2 && message@ == local_overflow_text()) && *final(self) == *old(self),
            old(self).circulating() + amount <= u64::MAX && old(self).counter() == u64::MAX ==> r
                == Err::<u64, TransferError>(TransferError::TemporarilyUnavailable) && *final(self)
                == *old(self),
            old(self).circulating() + amount <= u64::MAX && old(self).counter() < u64::MAX ==> {
                &&& r == Ok::<u64, TransferError>((old(self).counter() + 1) as u64)
                &&& final(self).counter() == old(self).counter() + 1
                &&& final(self).balances() == old(self).balances().insert(
                    account.owner@,
                    (bal(old(self).balances(), account.owner@) + amount) as u64,
                )
                &&& final(self).circulating() == old(self).circulating() + amount
            },
    {
        let values = self.balances.values();
        let total = sum_u64(&values);
        if total > u64::MAX - amount {
            let message = String::from_str("Minting would exceed the largest representable supply");
            return Err(TransferError::GenericError { error_code: 2, message });
        }
        if self.counter == u64::MAX {
            return Err(TransferError::TemporarilyUnavailable);
        }
        proof {
            self.balances.lemma_amount_le_total(account.owner@);
        }
        let current = match self.balances.get(&account.owner) {
            Some(b) => b,
            None => 0,
        };
        self.balances.set(account.owner, current + amount);
        self.counter = self.counter + 1;
        Ok(self.counter)
    }
}

} // verus!
