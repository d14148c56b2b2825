//! The custodial wallet: per-user virtual balances held in custody, and the
//! records of every operation.
//!
//! Operations that settle on the ledger run in two phases. The first checks and
//! changes nothing (or only records a refusal); the ledger call happens between
//! the phases, and other operations may run meanwhile; the second phase takes
//! the call's outcome, checks again what it depends on, and only then commits.
use vstd::prelude::*;
use vstd::string::*;
use crate::account::{Principal, principal_text_of};
use crate::ledger::TransferError;
use crate::table::{bal, moved, sum_u64, Table, TableKey};
use crate::digest::{mock_btc_address, sha256_of};
use crate::text::{decimal_of, hex_of, join, push_decimal};

verus! {

/// The fee that the wallet pays on each ledger transfer it makes.
pub const LEDGER_FEE: u64 = 10;

/// Most records that a history query returns.
pub const HISTORY_LIMIT: usize = 100;

#[derive(Clone, Copy, Debug, PartialEq, Eq)]
pub enum TransactionType {
    Send,
    Receive,
    Deposit,
    Withdraw,
    Mint,
}

#[derive(Clone, Copy, Debug, PartialEq, Eq)]
pub enum TransactionStatus {
    Pending,
    Confirmed,
    Failed,
}

/// A result carrying a message either way.
#[derive(Clone, Debug, PartialEq, Eq)]
pub enum TextResult {
    Success(String),
    Failure(String),
}

/// A record of an operation on the ledger, as the wallet saw it.
#[derive(Clone, Debug, PartialEq, Eq)]
pub struct Transaction {
    pub id: u64,
    pub tx_type: TransactionType,
    pub token: String,
    pub amount: u64,
    pub from: String,
    pub to: String,
    pub status: TransactionStatus,
    pub timestamp: u64,
    pub block_index: Option<u64>,
}

/// A record of an operation on virtual balances.
#[derive(Clone, Debug, PartialEq, Eq)]
pub struct CustodialTransaction {
    pub id: u64,
    pub tx_type: TransactionType,
    pub from_user: Option<Principal>,
    pub to_user: Option<Principal>,
    pub virtual_amount: Option<u64>,
    pub on_chain_amount: Option<u64>,
    pub block_index: Option<u64>,
    pub status: TransactionStatus,
    pub timestamp: u64,
}

/// An optional identity, seen as its optional bytes.
pub open spec fn opt_principal_view(p: Option<Principal>) -> Option<Seq<u8>> {
    match p {
        Some(x) => Some(x@),
        None => None,
    }
}

fn copy_opt_principal(p: &Option<Principal>) -> (r: Option<Principal>)
    ensures
        opt_principal_view(r) == opt_principal_view(*p),
{
    match p {
        Some(x) => Some(x.copy_key()),
        None => None,
    }
}

impl Transaction {
    /// A copy equal to the record.
    pub fn copy(&self) -> (r: Transaction)
        ensures
            r == *self,
    {
        Transaction {
            id: self.id,
            tx_type: self.tx_type,
            token: self.token.clone(),
            amount: self.amount,
            from: self.from.clone(),
            to: self.to.clone(),
            status: self.status,
            timestamp: self.timestamp,
            block_index: self.block_index,
        }
    }
}

/// Two custodial records agree field by field (identities by their bytes).
pub open spec fn same_record(a: CustodialTransaction, b: CustodialTransaction) -> bool {
    &&& a.id == b.id
    &&& a.tx_type == b.tx_type
    &&& opt_principal_view(a.from_user) == opt_principal_view(b.from_user)
    &&& opt_principal_view(a.to_user) == opt_principal_view(b.to_user)
    &&& a.virtual_amount == b.virtual_amount
    &&& a.on_chain_amount == b.on_chain_amount
    &&& a.block_index == b.block_index
    &&& a.status == b.status
    &&& a.timestamp == b.timestamp
}

impl CustodialTransaction {
    /// A copy that agrees with the record.
    pub fn copy(&self) -> (r: CustodialTransaction)
        ensures
            same_record(r, *self),
    {
        CustodialTransaction {
            id: self.id,
            tx_type: self.tx_type,
            from_user: copy_opt_principal(&self.from_user),
            to_user: copy_opt_principal(&self.to_user),
            virtual_amount: self.virtual_amount,
            on_chain_amount: self.on_chain_amount,
            block_index: self.block_index,
            status: self.status,
            timestamp: self.timestamp,
        }
    }
}

/// `after` is `before` with one more record, numbered after its position, that
/// holds these fields.
pub open spec fn logged(
    before: Seq<Transaction>,
    after: Seq<Transaction>,
    kind: TransactionType,
    token: Seq<char>,
    amount: u64,
    from: Seq<char>,
    to: Seq<char>,
    status: TransactionStatus,
    at: u64,
    block: Option<u64>,
) -> bool {
    &&& after.len() == before.len() + 1
    &&& after.drop_last() == before
    &&& after.last().id == after.len()
    &&& after.last().tx_type == kind
    &&& after.last().token@ == token
    &&& after.last().amount == amount
    &&& after.last().from@ == from
    &&& after.last().to@ == to
    &&& after.last().status == status
    &&& after.last().timestamp == at
    &&& after.last().block_index == block
}

/// `after` is `before` with one more custodial record, numbered after its
/// position, that holds these fields.
pub open spec fn custodial_logged(
    before: Seq<CustodialTransaction>,
    after: Seq<CustodialTransaction>,
    kind: TransactionType,
    from_user: Option<Seq<u8>>,
    to_user: Option<Seq<u8>>,
    virtual_amount: Option<u64>,
    on_chain_amount: Option<u64>,
    block: Option<u64>,
    status: TransactionStatus,
    at: u64,
) -> bool {
    &&& after.len() == before.len() + 1
    &&& after.drop_last() == before
    &&& after.last().id == after.len()
    &&& after.last().tx_type == kind
    &&& opt_principal_view(after.last().from_user) == from_user
    &&& opt_principal_view(after.last().to_user) == to_user
    &&& after.last().virtual_amount == virtual_amount
    &&& after.last().on_chain_amount == on_chain_amount
    &&& after.last().block_index == block
    &&& after.last().status == status
    &&& after.last().timestamp == at
}

/// Whether `r` is a success with this text.
pub open spec fn is_success(r: TextResult, text: Seq<char>) -> bool {
    match r {
        TextResult::Success(m) => m@ == text,
        TextResult::Failure(_) => false,
    }
}

/// Whether `r` is a failure with this text.
pub open spec fn is_failure(r: TextResult, text: Seq<char>) -> bool {
    match r {
        TextResult::Failure(m) => m@ == text,
        TextResult::Success(_) => false,
    }
}

/// Whether `r` is an error with this text.
pub open spec fn err_text<T>(r: Result<T, String>, text: Seq<char>) -> bool {
    match r {
        Err(s) => s@ == text,
        Ok(_) => false,
    }
}

/// The readable text of a ledger transfer error.
pub open spec fn transfer_error_text(e: TransferError) -> Seq<char> {
    match e {
        TransferError::BadFee { expected_fee } => "Bad fee. Expected: "@ + decimal_of(
            expected_fee as nat,
        ) + " satoshis"@,
        TransferError::InsufficientFunds { balance } => "Insufficient funds. Balance: "@
            + decimal_of(balance as nat) + " satoshis"@,
        TransferError::TooOld => "Transaction too old"@,
        TransferError::CreatedInFuture { ledger_time } => "Transaction created in future. Ledger time: "@
            + decimal_of(ledger_time as nat),
        TransferError::Duplicate { duplicate_of } => "Duplicate transaction. Original block: "@
            + decimal_of(duplicate_of as nat),
        TransferError::TemporarilyUnavailable => "Service temporarily unavailable"@,
        TransferError::GenericError { error_code, message } => "Error "@ + decimal_of(
            error_code as nat,
        ) + ": "@ + message@,
        TransferError::BadBurn { min_burn_amount } => "Bad burn amount. Minimum: "@ + decimal_of(
            min_burn_amount as nat,
        ) + " satoshis"@,
    }
}

/// Readable text of a ledger transfer error.
pub fn format_transfer_error(error: &TransferError) -> (r: String)
    ensures
        r@ == transfer_error_text(*error),
{
    match error {
        TransferError::BadFee { expected_fee } => {
            let mut s = String::from_str("Bad fee. Expected: ");
            push_decimal(&mut s, *expected_fee as u128);
            s.append(" satoshis");
            s
        },
        TransferError::InsufficientFunds { balance } => {
            let mut s = String::from_str("Insufficient funds. Balance: ");
            push_decimal(&mut s, *balance as u128);
            s.append(" satoshis");
            s
        },
        TransferError::TooOld => String::from_str("Transaction too old"),
        TransferError::CreatedInFuture { ledger_time } => {
            let mut s = String::from_str("Transaction created in future. Ledger time: ");
            push_decimal(&mut s, *ledger_time as u128);
            s
        },
        TransferError::Duplicate { duplicate_of } => {
            let mut s = String::from_str("Duplicate transaction. Original block: ");
            push_decimal(&mut s, *duplicate_of as u128);
            s
        },
        TransferError::TemporarilyUnavailable => String::from_str("Service temporarily unavailable"),
        TransferError::GenericError { error_code, message } => {
            let mut s = String::from_str("Error ");
            push_decimal(&mut s, *error_code as u128);
            s.append(": ");
            s.append(message.as_str());
            s
        },
        TransferError::BadBurn { min_burn_amount } => {
            let mut s = String::from_str("Bad burn amount. Minimum: ");
            push_decimal(&mut s, *min_burn_amount as u128);
            s.append(" satoshis");
            s
        },
    }
}

/// Text of a refusal for want of virtual balance.
pub open spec fn insufficient_virtual_text(available: nat, requested: nat) -> Seq<char> {
    "Insufficient virtual balance. Available: "@ + decimal_of(available) + ", Requested: "@
        + decimal_of(requested)
}

fn insufficient_virtual(available: u64, requested: u64) -> (r: String)
    ensures
        r@ == insufficient_virtual_text(available as nat, requested as nat),
{
    let mut s = String::from_str("Insufficient virtual balance. Available: ");
    push_decimal(&mut s, available as u128);
    s.append(", Requested: ");
    push_decimal(&mut s, requested as u128);
    s
}

/// Text of a refused self-transfer.
pub open spec fn self_transfer_text(from: Seq<u8>, to: Seq<u8>) -> Seq<char> {
    "Cannot transfer to yourself: "@ + principal_text_of(from) + " -> "@ + principal_text_of(to)
}

/// Text of a refused deposit that would push the virtual total past its bound.
pub open spec fn virtual_limit_text() -> Seq<char> {
    "Virtual balance limit exceeded"@
}

/// Solvency of the wallet: the sum of virtual balances against what the wallet
/// holds on the ledger. (The ratio of the two is left to the caller.)
#[derive(Clone, Copy, Debug, PartialEq, Eq)]
pub struct ReserveStatus {
    pub total_virtual_balances: u64,
    pub backend_actual_balance: u64,
    pub is_solvent: bool,
}

/// The ledger's reply to a transfer: the call failed (with its description),
/// or the ledger answered with a block index or an error.
pub type TransferOutcome = Result<Result<u64, TransferError>, String>;

/// The custodial wallet: virtual balances by user, and the two record logs.
pub struct Wallet {
    user_balances: Table<Principal, u64>,
    custodial: Vec<CustodialTransaction>,
    transactions: Vec<Transaction>,
}

impl Wallet {
    /// Users are unique, the virtual balances sum to at most `u64::MAX`, and
    /// each record's id is its position plus one.
    pub closed spec fn wf(&self) -> bool {
        &&& self.user_balances.wf()
        &&& self.user_balances.total() <= u64::MAX
        &&& forall|i: int| 0 <= i < self.custodial@.len() ==> #[trigger] self.custodial@[i].id == i + 1
        &&& forall|i: int|
            0 <= i < self.transactions@.len() ==> #[trigger] self.transactions@[i].id == i + 1
    }

    /// Virtual balance of every user that has an entry.
    pub closed spec fn virtual_balances(&self) -> Map<Seq<u8>, u64> {
        self.user_balances.view()
    }

    /// Virtual balance of `user`; zero when absent.
    pub open spec fn vbal(&self, user: Seq<u8>) -> nat {
        bal(self.virtual_balances(), user)
    }

    /// Sum of all virtual balances.
    pub closed spec fn total_virtual(&self) -> nat {
        self.user_balances.total()
    }

    /// Records of ledger operations, oldest first.
    pub closed spec fn history(&self) -> Seq<Transaction> {
        self.transactions@
    }

    /// Records of custodial operations, oldest first.
    pub closed spec fn custodial_history(&self) -> Seq<CustodialTransaction> {
        self.custodial@
    }

    /// Room for the records of one more operation.
    pub open spec fn log_room(&self) -> bool {
        &&& self.history().len() + 2 <= u64::MAX
        &&& self.custodial_history().len() + 1 <= u64::MAX
    }

    /// The numbering of records and the bound on the virtual total.
    pub proof fn lemma_wf(&self)
        requires
            self.wf(),
        ensures
            self.total_virtual() <= u64::MAX,
            forall|i: int|
                0 <= i < self.history().len() ==> #[trigger] self.history()[i].id == i + 1,
            forall|i: int|
                0 <= i < self.custodial_history().len() ==> #[trigger] self.custodial_history()[i].id
                    == i + 1,
    {
    }

    /// Whether the records of one more operation fit.
    pub fn has_log_room(&self) -> (r: bool)
        ensures
            r == self.log_room(),
    {
        (self.transactions.len() as u64) < u64::MAX - 1 && (self.custodial.len() as u64)
            < u64::MAX
    }

    /// A wallet with no balances and no records.
    pub fn new() -> (r: Wallet)
        ensures
            r.wf(),
            r.virtual_balances() == Map::<Seq<u8>, u64>::empty(),
            r.total_virtual() == 0,
            r.history() == Seq::<Transaction>::empty(),
            r.custodial_history() == Seq::<CustodialTransaction>::empty(),
    {
        let r = Wallet { user_balances: Table::new(), custodial: Vec::new(), transactions: Vec::new() };
        assert(r.history() =~= Seq::<Transaction>::empty());
        assert(r.custodial_history() =~= Seq::<CustodialTransaction>::empty());
        r
    }

    fn record(
        &mut self,
        tx_type: TransactionType,
        token: String,
        amount: u64,
        from: String,
        to: String,
        status: TransactionStatus,
        block_index: Option<u64>,
        now: u64,
    ) -> (r: u64)
        requires
            old(self).wf(),
            old(self).history().len() < u64::MAX,
        ensures
            final(self).wf(),
            r == final(self).history().len(),
            logged(
                old(self).history(),
                final(self).history(),
                tx_type,
                token@,
                amount,
                from@,
                to@,
                status,
                now,
                block_index,
            ),
            final(self).user_balances == old(self).user_balances,
            final(self).custodial == old(self).custodial,
    {
        let id = self.transactions.len() as u64 + 1;
        let ghost pre = self.transactions@;
        self.transactions.push(
            Transaction {
                id,
                tx_type,
                token,
                amount,
                from,
                to,
                status,
                timestamp: now,
                block_index,
            },
        );
        assert(self.transactions@.drop_last() =~= pre);
        id
    }

    fn record_custodial(
        &mut self,
        tx_type: TransactionType,
        from_user: Option<Principal>,
        to_user: Option<Principal>,
        virtual_amount: Option<u64>,
        on_chain_amount: Option<u64>,
        status: TransactionStatus,
        block_index: Option<u64>,
        now: u64,
    ) -> (r: u64)
        requires
            old(self).wf(),
            old(self).custodial_history().len() < u64::MAX,
        ensures
            final(self).wf(),
            r == final(self).custodial_history().len(),
            custodial_logged(
                old(self).custodial_history(),
                final(self).custodial_history(),
                tx_type,
                opt_principal_view(from_user),
                opt_principal_view(to_user),
                virtual_amount,
                on_chain_amount,
                block_index,
                status,
                now,
            ),
            final(self).user_balances == old(self).user_balances,
            final(self).transactions == old(self).transactions,
    {
        let id = self.custodial.len() as u64 + 1;
        let ghost pre = self.custodial@;
        self.custodial.push(
            CustodialTransaction {
                id,
                tx_type,
                from_user,
                to_user,
                virtual_amount,
                on_chain_amount,
                block_index,
                status,
                timestamp: now,
            },
        );
        assert(self.custodial@.drop_last() =~= pre);
        id
    }

    /// Virtual balance of `user`.
    pub fn get_virtual_balance(&self, user: &Principal) -> (r: u64)
        requires
            self.wf(),
        ensures
            r == self.vbal(user@),
    {
        match self.user_balances.get(user) {
            Some(b) => b,
            None => 0,
        }
    }

    /// Virtual balance of `user`, in satoshis.
    pub fn get_virtual_balance_formatted(&self, user: &Principal) -> (r: u64)
        requires
            self.wf(),
        ensures
            r == self.vbal(user@),
    {
        self.get_virtual_balance(user)
    }

    /// Moves `amount` of virtual balance from `caller` to `to_user` in one step,
    /// with no ledger settlement; returns the id of the record.
    pub fn virtual_transfer(
        &mut self,
        caller: &Principal,
        to_user: &Principal,
        amount: u64,
        now: u64,
    ) -> (r: Result<u64, String>)
        requires
            old(self).wf(),
            old(self).log_room(),
            caller.wf(),
            to_user.wf(),
        ensures
            final(self).wf(),
            caller@ == to_user@ ==> err_text(r, self_transfer_text(caller@, to_user@))
                && *final(self) == *old(self),
            caller@ != to_user@ && old(self).vbal(caller@) < amount ==> {
                &&& err_text(r, insufficient_virtual_text(old(self).vbal(caller@), amount as nat))
                &&& final(self).virtual_balances() == old(self).virtual_balances()
                &&& final(self).total_virtual() == old(self).total_virtual()
                &&& final(self).history() == old(self).history()
                &&& custodial_logged(
                    old(self).custodial_history(),
                    final(self).custodial_history(),
                    TransactionType::Send,
                    Some(caller@),
                    Some(to_user@),
                    Some(amount),
                    None,
                    None,
                    TransactionStatus::Failed,
                    now,
                )
            },
            caller@ != to_user@ && old(self).vbal(caller@) >= amount ==> {
                &&& r == Ok::<u64, String>((old(self).custodial_history().len() + 1) as u64)
                &&& final(self).virtual_balances() == moved(
                    old(self).virtual_balances(),
                    caller@,
                    to_user@,
                    amount as nat,
                    amount as nat,
                )
                &&& final(self).total_virtual() == old(self).total_virtual()
                &&& final(self).history() == old(self).history()
                &&& custodial_logged(
                    old(self).custodial_history(),
                    final(self).custodial_history(),
                    TransactionType::Send,
                    Some(caller@),
                    Some(to_user@),
                    Some(amount),
                    None,
                    None,
                    TransactionStatus::Confirmed,
                    now,
                )
            },
    {
        if caller.same_key(to_user) {
            let mut s = String::from_str("Cannot transfer to yourself: ");
            let a = caller.to_text();
            s.append(a.as_str());
            s.append(" -> ");
            let b = to_user.to_text();
            s.append(b.as_str());
            return Err(s);
        }
        let from_balance = self.get_virtual_balance(caller);
        if from_balance < amount {
            self.record_custodial(
                TransactionType::Send,
                Some(caller.copy_key()),
                Some(to_user.copy_key()),
                Some(amount),
                None,
                TransactionStatus::Failed,
                None,
                now,
            );
            return Err(insufficient_virtual(from_balance, amount));
        }
        self.user_balances.set(caller.copy_key(), from_balance - amount);
        proof {
            self.user_balances.lemma_amount_le_total(to_user@);
        }
        let to_balance = self.get_virtual_balance(to_user);
        self.user_balances.set(to_user.copy_key(), to_balance + amount);
        let id = self.record_custodial(
            TransactionType::Send,
            Some(caller.copy_key()),
            Some(to_user.copy_key()),
            Some(amount),
            None,
            TransactionStatus::Confirmed,
            None,
            now,
        );
        Ok(id)
    }
}

impl Wallet {
    /// First phase of a withdrawal: refuses (and records the refusal) when the
    /// virtual balance is below `amount`; otherwise changes nothing.
    pub fn withdraw_begin(&mut self, caller: &Principal, amount: u64, now: u64) -> (r: Result<
        (),
        String,
    >)
        requires
            old(self).wf(),
            old(self).log_room(),
        ensures
            final(self).wf(),
            old(self).vbal(caller@) < amount ==> {
                &&& err_text(r, insufficient_virtual_text(old(self).vbal(caller@), amount as nat))
                &&& final(self).virtual_balances() == old(self).virtual_balances()
                &&& final(self).total_virtual() == old(self).total_virtual()
                &&& final(self).history() == old(self).history()
                &&& custodial_logged(
                    old(self).custodial_history(),
                    final(self).custodial_history(),
                    TransactionType::Withdraw,
                    None,
                    Some(caller@),
                    Some(amount),
                    Some(amount),
                    None,
                    TransactionStatus::Failed,
                    now,
                )
            },
            old(self).vbal(caller@) >= amount ==> r is Ok && *final(self) == *old(self),
    {
        let current = self.get_virtual_balance(caller);
        if current < amount {
            self.record_custodial(
                TransactionType::Withdraw,
                None,
                Some(caller.copy_key()),
                Some(amount),
                Some(amount),
                TransactionStatus::Failed,
                None,
                now,
            );
            return Err(insufficient_virtual(current, amount));
        }
        Ok(())
    }

    /// Second phase of a withdrawal, given the ledger's reply to the transfer
    /// from the wallet to the caller. The virtual balance is checked again and
    /// lowered by `amount` only when the ledger confirmed the transfer and the
    /// balance still covers it; every other outcome leaves it untouched.
    pub fn withdraw_finish(
        &mut self,
        caller: &Principal,
        amount: u64,
        outcome: TransferOutcome,
        now: u64,
    ) -> (r: Result<u64, String>)
        requires
            old(self).wf(),
            old(self).log_room(),
        ensures
            final(self).wf(),
            withdraw_outcome(*old(self), *final(self), caller@, amount, outcome, now, r),
    {
        match outcome {
            Ok(Ok(block)) => {
                let current = self.get_virtual_balance(caller);
                if current < amount {
                    self.record_custodial(
                        TransactionType::Withdraw,
                        None,
                        Some(caller.copy_key()),
                        Some(amount),
                        Some(amount),
                        TransactionStatus::Failed,
                        None,
                        now,
                    );
                    return Err(insufficient_virtual(current, amount));
                }
                self.user_balances.set(caller.copy_key(), current - amount);
                self.record_custodial(
                    TransactionType::Withdraw,
                    None,
                    Some(caller.copy_key()),
                    Some(amount),
                    Some(amount),
                    TransactionStatus::Confirmed,
                    Some(block),
                    now,
                );
                Ok(block)
            },
            Ok(Err(e)) => {
                self.record_custodial(
                    TransactionType::Withdraw,
                    None,
                    Some(caller.copy_key()),
                    Some(amount),
                    Some(amount),
                    TransactionStatus::Failed,
                    None,
                    now,
                );
                let text = format_transfer_error(&e);
                Err(join("Withdrawal transfer failed: ", text.as_str()))
            },
            Err(m) => {
                self.record_custodial(
                    TransactionType::Withdraw,
                    None,
                    Some(caller.copy_key()),
                    Some(amount),
                    Some(amount),
                    TransactionStatus::Failed,
                    None,
                    now,
                );
                Err(join("Withdrawal call failed: ", m.as_str()))
            },
        }
    }

    /// Second phase of a deposit into the wallet's own account, given the
    /// ledger's reply: a confirmed transfer raises the caller's virtual balance
    /// by `amount`, unless the sum of all virtual balances would pass `u64::MAX`.
    pub fn deposit_funds_finish(
        &mut self,
        caller: &Principal,
        amount: u64,
        outcome: TransferOutcome,
        now: u64,
    ) -> (r: Result<u64, String>)
        requires
            old(self).wf(),
            old(self).log_room(),
        ensures
            final(self).wf(),
            final(self).history() == old(self).history(),
            r is Ok ==> {
                &&& outcome == Ok::<Result<u64, TransferError>, String>(Ok(r->Ok_0))
                &&& final(self).virtual_balances() == old(self).virtual_balances().insert(
                    caller@,
                    (old(self).vbal(caller@) + amount) as u64,
                )
                &&& final(self).total_virtual() == old(self).total_virtual() + amount
                &&& custodial_logged(
                    old(self).custodial_history(),
                    final(self).custodial_history(),
                    TransactionType::Deposit,
                    Some(caller@),
                    None,
                    Some(amount),
                    Some(amount),
                    Some(r->Ok_0),
                    TransactionStatus::Confirmed,
                    now,
                )
            },
            r is Err ==> {
                &&& final(self).virtual_balances() == old(self).virtual_balances()
                &&& final(self).total_virtual() == old(self).total_virtual()
                &&& custodial_logged(
                    old(self).custodial_history(),
                    final(self).custodial_history(),
                    TransactionType::Deposit,
                    Some(caller@),
                    None,
                    Some(amount),
                    Some(amount),
                    None,
                    TransactionStatus::Failed,
                    now,
                )
            },
            match outcome {
                Ok(Ok(block)) => if old(self).total_virtual() + amount <= u64::MAX {
                    r == Ok::<u64, String>(block)
                } else {
                    err_text(r, virtual_limit_text())
                },
                Ok(Err(e)) => err_text(r, "Deposit transfer failed: "@ + transfer_error_text(e)),
                Err(m) => err_text(r, "Deposit call failed: "@ + m@),
            },
    {
        match outcome {
            Ok(Ok(block)) => {
                if !self.virtual_room(amount) {
                    self.record_custodial(
                        TransactionType::Deposit,
                        Some(caller.copy_key()),
                        None,
                        Some(amount),
                        Some(amount),
                        TransactionStatus::Failed,
                        None,
                        now,
                    );
                    return Err(String::from_str("Virtual balance limit exceeded"));
                }
                proof {
                    self.user_balances.lemma_amount_le_total(caller@);
                }
                let current = self.get_virtual_balance(caller);
                self.user_balances.set(caller.copy_key(), current + amount);
                self.record_custodial(
                    TransactionType::Deposit,
                    Some(caller.copy_key()),
                    None,
                    Some(amount),
                    Some(amount),
                    TransactionStatus::Confirmed,
                    Some(block),
                    now,
                );
                Ok(block)
            },
            Ok(Err(e)) => {
                self.record_custodial(
                    TransactionType::Deposit,
                    Some(caller.copy_key()),
                    None,
                    Some(amount),
                    Some(amount),
                    TransactionStatus::Failed,
                    None,
                    now,
                );
                let text = format_transfer_error(&e);
                Err(join("Deposit transfer failed: ", text.as_str()))
            },
            Err(m) => {
                self.record_custodial(
                    TransactionType::Deposit,
                    Some(caller.copy_key()),
                    None,
                    Some(amount),
                    Some(amount),
                    TransactionStatus::Failed,
                    None,
                    now,
                );
                Err(join("Deposit call failed: ", m.as_str()))
            },
        }
    }

    /// Sum of all virtual balances.
    pub fn total_virtual_balance(&self) -> (r: u64)
        requires
            self.wf(),
        ensures
            r == self.total_virtual(),
    {
        let values = self.user_balances.values();
        sum_u64(&values)
    }

    fn virtual_room(&self, amount: u64) -> (r: bool)
        requires
            self.wf(),
        ensures
            r == (self.total_virtual() + amount <= u64::MAX),
    {
        let total = self.total_virtual_balance();
        total <= u64::MAX - amount
    }

    /// Sum of virtual balances against the wallet's actual ledger balance.
    pub fn get_reserve_status(&self, backend_actual: u64) -> (r: ReserveStatus)
        requires
            self.wf(),
        ensures
            r.total_virtual_balances == self.total_virtual(),
            r.backend_actual_balance == backend_actual,
            r.is_solvent == (backend_actual >= self.total_virtual()),
    {
        let total = self.total_virtual_balance();
        ReserveStatus {
            total_virtual_balances: total,
            backend_actual_balance: backend_actual,
            is_solvent: backend_actual >= total,
        }
    }

    /// The latest records (at most 100), newest first.
    pub fn get_transaction_history(&self) -> (r: Vec<Transaction>)
        requires
            self.wf(),
        ensures
            r@.len() == if self.history().len() < HISTORY_LIMIT {
                self.history().len()
            } else {
                HISTORY_LIMIT as nat
            },
            forall|i: int|
                0 <= i < r@.len() ==> #[trigger] r@[i] == self.history()[self.history().len() - 1
                    - i],
            forall|i: int, j: int| 0 <= i < j < r@.len() ==> #[trigger] r@[i].id > #[trigger] r@[j].id,
    {
        let n = self.transactions.len();
        let mut r: Vec<Transaction> = Vec::new();
        let mut k: usize = 0;
        while k < n && k < HISTORY_LIMIT
            invariant
                n == self.transactions@.len(),
                k <= n,
                k <= HISTORY_LIMIT,
                r@.len() == k,
                forall|i: int| 0 <= i < k ==> #[trigger] r@[i] == self.transactions@[n - 1 - i],
            decreases n - k,
        {
            r.push(self.transactions[n - 1 - k].copy());
            k = k + 1;
        }
        proof {
            assert forall|i: int, j: int| 0 <= i < j < r@.len() implies #[trigger] r@[i].id
                > #[trigger] r@[j].id by {
                assert(self.transactions@[n - 1 - i].id == n - i);
                assert(self.transactions@[n - 1 - j].id == n - j);
            }
        }
        r
    }

    /// The latest custodial records (at most 100), newest first.
    pub fn get_custodial_transaction_history(&self) -> (r: Vec<CustodialTransaction>)
        requires
            self.wf(),
        ensures
            r@.len() == if self.custodial_history().len() < HISTORY_LIMIT {
                self.custodial_history().len()
            } else {
                HISTORY_LIMIT as nat
            },
            forall|i: int|
                0 <= i < r@.len() ==> same_record(
                    #[trigger] r@[i],
                    self.custodial_history()[self.custodial_history().len() - 1 - i],
                ),
            forall|i: int, j: int| 0 <= i < j < r@.len() ==> #[trigger] r@[i].id > #[trigger] r@[j].id,
    {
        let n = self.custodial.len();
        let mut r: Vec<CustodialTransaction> = Vec::new();
        let mut k: usize = 0;
        while k < n && k < HISTORY_LIMIT
            invariant
                n == self.custodial@.len(),
                k <= n,
                k <= HISTORY_LIMIT,
                r@.len() == k,
                forall|i: int| 0 <= i < k ==> same_record(#[trigger] r@[i], self.custodial@[n - 1 - i]),
            decreases n - k,
        {
            r.push(self.custodial[n - 1 - k].copy());
            k = k + 1;
        }
        proof {
            assert forall|i: int, j: int| 0 <= i < j < r@.len() implies #[trigger] r@[i].id
                > #[trigger] r@[j].id by {
                assert(same_record(r@[i], self.custodial@[n - 1 - i]));
                assert(same_record(r@[j], self.custodial@[n - 1 - j]));
                assert(self.custodial@[n - 1 - i].id == n - i);
                assert(self.custodial@[n - 1 - j].id == n - j);
            }
        }
        r
    }

    /// The record with this id, if any.
    pub fn get_transaction(&self, id: u64) -> (r: Option<Transaction>)
        requires
            self.wf(),
        ensures
            r == (if 1 <= id <= self.history().len() {
                Some(self.history()[id - 1])
            } else {
                None::<Transaction>
            }),
    {
        let mut i: usize = 0;
        while i < self.transactions.len()
            invariant
                self.wf(),
                i <= self.transactions@.len(),
                forall|j: int| 0 <= j < i ==> self.transactions@[j].id != id,
            decreases self.transactions@.len() - i,
        {
            if self.transactions[i].id == id {
                assert(self.transactions@[i as int].id == i + 1);
                return Some(self.transactions[i].copy());
            }
            i = i + 1;
        }
        None
    }
}


/// Amount that the faucet mints: one whole token.
pub const FAUCET_AMOUNT: u64 = 100_000_000;

/// The fee of an ICP ledger transfer.
pub const ICP_TRANSFER_FEE: u64 = 10_000;

/// Balances of a user: in custody and in the user's own account.
#[derive(Clone, Copy, Debug, PartialEq, Eq)]
pub struct WalletStatus {
    pub custodial_balance: u64,
    pub personal_balance: u64,
    pub total_available: u128,
    pub can_deposit: bool,
}

/// What a deposit into custody did.
#[derive(Clone, Copy, Debug, PartialEq, Eq)]
pub struct DepositReceipt {
    pub block_index: u64,
    pub amount_deposited: u64,
    pub new_custodial_balance: u64,
    pub remaining_personal_balance: u64,
}

/// Whether `p` begins `s`.
pub open spec fn has_prefix(s: Seq<char>, p: Seq<char>) -> bool {
    p.len() <= s.len() && s.subrange(0, p.len() as int) == p
}

/// Relies on `str::starts_with` with a string pattern: whether `prefix` begins `s`.
#[verifier::external_body]
fn starts_with(s: &str, prefix: &str) -> (r: bool)
    ensures
        r == has_prefix(s@, prefix@),
{
    s.starts_with(prefix)
}

/// A test-network address begins with "tb1", "2", "m" or "n".
pub open spec fn valid_testbtc_address(a: Seq<char>) -> bool {
    has_prefix(a, "tb1"@) || has_prefix(a, "2"@) || has_prefix(a, "m"@) || has_prefix(a, "n"@)
}

/// Whether `address` has the form of a test-network address.
pub fn is_valid_testbtc_address(address: &str) -> (r: bool)
    ensures
        r == valid_testbtc_address(address@),
{
    starts_with(address, "tb1") || starts_with(address, "2") || starts_with(address, "m")
        || starts_with(address, "n")
}

/// An amount given as its 64-bit digits (least significant first): exactly one
/// digit is accepted, so zero (no digits) and amounts beyond `u64` are refused.
pub fn parse_amount(digits: &Vec<u64>) -> (r: Result<u64, String>)
    ensures
        digits@.len() == 1 ==> r == Ok::<u64, String>(digits@[0]),
        digits@.len() != 1 ==> err_text(r, "Invalid amount format"@),
{
    if digits.len() != 1 {
        return Err(String::from_str("Invalid amount format"));
    }
    Ok(digits[0])
}

/// Balances for display. A balance that could not be read counts as zero: the
/// status is a best-effort view, not a basis for moving funds.
pub fn wallet_status(custodial: Option<u64>, personal: Option<u64>) -> (r: WalletStatus)
    ensures
        r.custodial_balance == match custodial {
            Some(b) => b,
            None => 0,
        },
        r.personal_balance == match personal {
            Some(b) => b,
            None => 0,
        },
        r.total_available == r.custodial_balance + r.personal_balance,
        r.can_deposit == (r.personal_balance > 0),
{
    let c = match custodial {
        Some(b) => b,
        None => 0,
    };
    let p = match personal {
        Some(b) => b,
        None => 0,
    };
    WalletStatus {
        custodial_balance: c,
        personal_balance: p,
        total_available: c as u128 + p as u128,
        can_deposit: p > 0,
    }
}

/// Text of a refused deposit into custody.
pub open spec fn insufficient_personal_text(balance: nat, needed: nat) -> Seq<char> {
    "Insufficient personal balance. Balance: "@ + decimal_of(balance) + " satoshis, Needed: "@
        + decimal_of(needed) + " satoshis (including 10 satoshi fee)"@
}

/// First phase of a deposit into custody, given the caller's personal
/// balance as read from the ledger: refuses when it is below `amount` plus the fee.
pub fn deposit_to_custody_check(amount: u64, personal: Result<u64, String>) -> (r: Result<
    (),
    String,
>)
    ensures
        match personal {
            Err(m) => err_text(r, "Failed to check balance: "@ + m@),
            Ok(b) => if b < amount + LEDGER_FEE {
                err_text(r, insufficient_personal_text(b as nat, (amount + LEDGER_FEE) as nat))
            } else {
                r is Ok
            },
        },
{
    match personal {
        Err(m) => Err(join("Failed to check balance: ", m.as_str())),
        Ok(b) => {
            let needed: u128 = amount as u128 + LEDGER_FEE as u128;
            if (b as u128) < needed {
                let mut s = String::from_str("Insufficient personal balance. Balance: ");
                push_decimal(&mut s, b as u128);
                s.append(" satoshis, Needed: ");
                push_decimal(&mut s, needed);
                s.append(" satoshis (including 10 satoshi fee)");
                Err(s)
            } else {
                Ok(())
            }
        },
    }
}

/// Whether the faucet refuses: it works only in a local test environment.
pub fn faucet_refusal(is_local: bool) -> (r: Option<TextResult>)
    ensures
        is_local ==> r is None,
        !is_local ==> r is Some && is_failure(r->Some_0, "Faucet only available in local development"@),
{
    if is_local {
        None
    } else {
        Some(TextResult::Failure(String::from_str("Faucet only available in local development")))
    }
}

/// The deposit address of `caller`: in a local environment a mock address
/// derived from the caller's bytes, elsewhere a placeholder naming the start of
/// the caller's text.
pub fn get_btc_address(caller: &Principal, is_local: bool) -> (r: TextResult)
    requires
        caller.wf(),
    ensures
        is_local ==> is_success(r, "tb1q"@ + hex_of(sha256_of(caller@).subrange(0, 16))),
        !is_local ==> is_success(r, "tb1q_testbtc_address_for_"@
            + principal_text_of(caller@).subrange(
            0,
            if principal_text_of(caller@).len() < 8 {
                principal_text_of(caller@).len() as int
            } else {
                8
            },
        )),
{
    if is_local {
        let a = mock_btc_address(caller, &None);
        assert(caller@ + Seq::<u8>::empty() =~= caller@);
        TextResult::Success(a)
    } else {
        let text = caller.to_text();
        let n = text.unicode_len();
        let k: usize = if n < 8 {
            n
        } else {
            8
        };
        let head = text.as_str().substring_ascii(0, k);
        TextResult::Success(join("tb1q_testbtc_address_for_", head))
    }
}

/// Whether `after` is `before` with two records: a sent one and a received one
/// of the same transfer.
pub open spec fn logged_pair(
    before: Seq<Transaction>,
    after: Seq<Transaction>,
    from: Seq<char>,
    to: Seq<char>,
    amount: u64,
    at: u64,
    block: u64,
) -> bool {
    &&& after.len() == before.len() + 2
    &&& logged(
        before,
        after.drop_last(),
        TransactionType::Send,
        "ckTestBTC"@,
        amount,
        from,
        to,
        TransactionStatus::Confirmed,
        at,
        Some(block),
    )
    &&& logged(
        after.drop_last(),
        after,
        TransactionType::Receive,
        "ckTestBTC"@,
        amount,
        from,
        to,
        TransactionStatus::Confirmed,
        at,
        Some(block),
    )
}

impl Wallet {
    /// Second phase of a deposit into custody, given the ledger's reply to the
    /// transfer and the two balances read again afterwards (an unread balance
    /// shows as zero). Virtual balances never change here.
    pub fn deposit_to_custody_finish(
        &mut self,
        caller: &Principal,
        amount: u64,
        outcome: TransferOutcome,
        custodial_after: Option<u64>,
        personal_after: Option<u64>,
        now: u64,
    ) -> (r: Result<DepositReceipt, String>)
        requires
            old(self).wf(),
            old(self).log_room(),
            caller.wf(),
        ensures
            final(self).wf(),
            final(self).virtual_balances() == old(self).virtual_balances(),
            final(self).total_virtual() == old(self).total_virtual(),
            final(self).custodial_history() == old(self).custodial_history(),
            match outcome {
                Ok(Ok(block)) => {
                    &&& r == Ok::<DepositReceipt, String>(
                        DepositReceipt {
                            block_index: block,
                            amount_deposited: amount,
                            new_custodial_balance: match custodial_after {
                                Some(b) => b,
                                None => 0,
                            },
                            remaining_personal_balance: match personal_after {
                                Some(b) => b,
                                None => 0,
                            },
                        },
                    )
                    &&& logged(
                        old(self).history(),
                        final(self).history(),
                        TransactionType::Deposit,
                        "ckTestBTC"@,
                        amount,
                        principal_text_of(caller@),
                        "Custodial Wallet"@,
                        TransactionStatus::Confirmed,
                        now,
                        Some(block),
                    )
                },
                Ok(Err(e)) => {
                    &&& err_text(r, "Transfer failed: "@ + transfer_error_text(e))
                    &&& logged(
                        old(self).history(),
                        final(self).history(),
                        TransactionType::Deposit,
                        "ckTestBTC"@,
                        amount,
                        principal_text_of(caller@),
                        "Custodial Wallet"@,
                        TransactionStatus::Failed,
                        now,
                        None,
                    )
                },
                Err(m) => {
                    &&& err_text(r, "Failed to call transfer: "@ + m@)
                    &&& logged(
                        old(self).history(),
                        final(self).history(),
                        TransactionType::Deposit,
                        "ckTestBTC"@,
                        amount,
                        principal_text_of(caller@),
                        "Custodial Wallet"@,
                        TransactionStatus::Failed,
                        now,
                        None,
                    )
                },
            },
    {
        let (status, block) = match &outcome {
            Ok(Ok(b)) => (TransactionStatus::Confirmed, Some(*b)),
            _ => (TransactionStatus::Failed, None),
        };
        self.record(
            TransactionType::Deposit,
            String::from_str("ckTestBTC"),
            amount,
            caller.to_text(),
            String::from_str("Custodial Wallet"),
            status,
            block,
            now,
        );
        match outcome {
            Ok(Ok(b)) => Ok(
                DepositReceipt {
                    block_index: b,
                    amount_deposited: amount,
                    new_custodial_balance: match custodial_after {
                        Some(c) => c,
                        None => 0,
                    },
                    remaining_personal_balance: match personal_after {
                        Some(p) => p,
                        None => 0,
                    },
                },
            ),
            Ok(Err(e)) => {
                let text = format_transfer_error(&e);
                Err(join("Transfer failed: ", text.as_str()))
            },
            Err(m) => Err(join("Failed to call transfer: ", m.as_str())),
        }
    }

    /// First phase of a send, given the caller's balance as read from the
    /// ledger: refuses (and records the refusal) when it is below `amount` plus
    /// the fee.
    pub fn transfer_check(
        &mut self,
        caller: &Principal,
        to: &Principal,
        amount: u64,
        balance: Result<u64, String>,
        now: u64,
    ) -> (r: Result<(), String>)
        requires
            old(self).wf(),
            old(self).log_room(),
            caller.wf(),
            to.wf(),
        ensures
            final(self).wf(),
            final(self).virtual_balances() == old(self).virtual_balances(),
            final(self).custodial_history() == old(self).custodial_history(),
            match balance {
                Err(m) => err_text(r, "Failed to check balance: "@ + m@) && *final(self) == *old(self),
                Ok(b) => if b < amount + LEDGER_FEE {
                    &&& err_text(
                        r,
                        "Insufficient balance. Required: "@ + decimal_of((amount + LEDGER_FEE) as nat)
                            + ", Available: "@ + decimal_of(b as nat),
                    )
                    &&& logged(
                        old(self).history(),
                        final(self).history(),
                        TransactionType::Send,
                        "ckTestBTC"@,
                        amount,
                        principal_text_of(caller@),
                        principal_text_of(to@),
                        TransactionStatus::Failed,
                        now,
                        None,
                    )
                } else {
                    r is Ok && *final(self) == *old(self)
                },
            },
    {
        match balance {
            Err(m) => Err(join("Failed to check balance: ", m.as_str())),
            Ok(b) => {
                let required: u128 = amount as u128 + LEDGER_FEE as u128;
                if (b as u128) < required {
                    self.record(
                        TransactionType::Send,
                        String::from_str("ckTestBTC"),
                        amount,
                        caller.to_text(),
                        to.to_text(),
                        TransactionStatus::Failed,
                        None,
                        now,
                    );
                    let mut s = String::from_str("Insufficient balance. Required: ");
                    push_decimal(&mut s, required);
                    s.append(", Available: ");
                    push_decimal(&mut s, b as u128);
                    Err(s)
                } else {
                    Ok(())
                }
            },
        }
    }

    /// Second phase of a send, given the ledger's reply: a confirmed send is
    /// recorded twice (sent and received), a failed one once.
    pub fn transfer_finish(
        &mut self,
        caller: &Principal,
        to: &Principal,
        amount: u64,
        outcome: TransferOutcome,
        now: u64,
    ) -> (r: Result<u64, String>)
        requires
            old(self).wf(),
            old(self).log_room(),
            caller.wf(),
            to.wf(),
        ensures
            final(self).wf(),
            final(self).virtual_balances() == old(self).virtual_balances(),
            final(self).custodial_history() == old(self).custodial_history(),
            match outcome {
                Ok(Ok(block)) => r == Ok::<u64, String>(block) && logged_pair(
                    old(self).history(),
                    final(self).history(),
                    principal_text_of(caller@),
                    principal_text_of(to@),
                    amount,
                    now,
                    block,
                ),
                Ok(Err(e)) => err_text(r, transfer_error_text(e)) && logged(
                    old(self).history(),
                    final(self).history(),
                    TransactionType::Send,
                    "ckTestBTC"@,
                    amount,
                    principal_text_of(caller@),
                    principal_text_of(to@),
                    TransactionStatus::Failed,
                    now,
                    None,
                ),
                Err(m) => err_text(r, "Call failed: "@ + m@) && logged(
                    old(self).history(),
                    final(self).history(),
                    TransactionType::Send,
                    "ckTestBTC"@,
                    amount,
                    principal_text_of(caller@),
                    principal_text_of(to@),
                    TransactionStatus::Failed,
                    now,
                    None,
                ),
            },
    {
        match outcome {
            Ok(Ok(block)) => {
                let ghost h0 = self.history();
                self.record(
                    TransactionType::Send,
                    String::from_str("ckTestBTC"),
                    amount,
                    caller.to_text(),
                    to.to_text(),
                    TransactionStatus::Confirmed,
                    Some(block),
                    now,
                );
                let ghost h1 = self.history();
                self.record(
                    TransactionType::Receive,
                    String::from_str("ckTestBTC"),
                    amount,
                    caller.to_text(),
                    to.to_text(),
                    TransactionStatus::Confirmed,
                    Some(block),
                    now,
                );
                assert(self.history().drop_last() == h1);
                Ok(block)
            },
            Ok(Err(e)) => {
                self.record(
                    TransactionType::Send,
                    String::from_str("ckTestBTC"),
                    amount,
                    caller.to_text(),
                    to.to_text(),
                    TransactionStatus::Failed,
                    None,
                    now,
                );
                Err(format_transfer_error(&e))
            },
            Err(m) => {
                self.record(
                    TransactionType::Send,
                    String::from_str("ckTestBTC"),
                    amount,
                    caller.to_text(),
                    to.to_text(),
                    TransactionStatus::Failed,
                    None,
                    now,
                );
                Err(join("Call failed: ", m.as_str()))
            },
        }
    }

    /// Second phase of the faucet, given the ledger's reply to the mint: a
    /// confirmed mint is recorded; a failed one is only reported.
    pub fn faucet_finish(&mut self, caller: &Principal, outcome: TransferOutcome, now: u64) -> (r:
        TextResult)
        requires
            old(self).wf(),
            old(self).log_room(),
            caller.wf(),
        ensures
            final(self).wf(),
            final(self).virtual_balances() == old(self).virtual_balances(),
            final(self).custodial_history() == old(self).custodial_history(),
            match outcome {
                Ok(Ok(block)) => {
                    &&& is_success(r, "Successfully minted 1 ckTestBTC to "@ + principal_text_of(caller@))
                    &&& logged(
                        old(self).history(),
                        final(self).history(),
                        TransactionType::Mint,
                        "ckTestBTC"@,
                        FAUCET_AMOUNT,
                        "faucet"@,
                        principal_text_of(caller@),
                        TransactionStatus::Confirmed,
                        now,
                        Some(block),
                    )
                },
                Ok(Err(e)) => is_failure(r, "Mint failed: "@ + transfer_error_text(e))
                    && *final(self) == *old(self),
                Err(c) => is_failure(r, "Call failed: "@ + c@) && *final(self) == *old(self),
            },
    {
        match outcome {
            Ok(Ok(block)) => {
                let text = caller.to_text();
                self.record(
                    TransactionType::Mint,
                    String::from_str("ckTestBTC"),
                    FAUCET_AMOUNT,
                    String::from_str("faucet"),
                    caller.to_text(),
                    TransactionStatus::Confirmed,
                    Some(block),
                    now,
                );
                TextResult::Success(join("Successfully minted 1 ckTestBTC to ", text.as_str()))
            },
            Ok(Err(e)) => {
                let text = format_transfer_error(&e);
                TextResult::Failure(join("Mint failed: ", text.as_str()))
            },
            Err(c) => TextResult::Failure(join("Call failed: ", c.as_str())),
        }
    }

    /// Second phase of a withdrawal to the test network, given the minter's
    /// reply (a block index, or its error as text): the request is recorded as
    /// pending, or as failed.
    pub fn withdraw_testbtc_finish(
        &mut self,
        caller: &Principal,
        address: String,
        amount: u64,
        outcome: Result<Result<u64, String>, String>,
        now: u64,
    ) -> (r: TextResult)
        requires
            old(self).wf(),
            old(self).log_room(),
            caller.wf(),
        ensures
            final(self).wf(),
            final(self).virtual_balances() == old(self).virtual_balances(),
            final(self).custodial_history() == old(self).custodial_history(),
            match outcome {
                Ok(Ok(block)) => {
                    &&& is_success(r, "Withdrawal initiated. Block index: "@ + decimal_of(block as nat))
                    &&& logged(
                        old(self).history(),
                        final(self).history(),
                        TransactionType::Withdraw,
                        "ckTestBTC"@,
                        amount,
                        principal_text_of(caller@),
                        address@,
                        TransactionStatus::Pending,
                        now,
                        Some(block),
                    )
                },
                Ok(Err(e)) => {
                    &&& is_failure(r, "Withdrawal failed: "@ + e@)
                    &&& logged(
                        old(self).history(),
                        final(self).history(),
                        TransactionType::Withdraw,
                        "ckTestBTC"@,
                        amount,
                        principal_text_of(caller@),
                        address@,
                        TransactionStatus::Failed,
                        now,
                        None,
                    )
                },
                Err(c) => is_failure(r, "Call failed: "@ + c@) && *final(self) == *old(self),
            },
    {
        match outcome {
            Ok(Ok(block)) => {
                self.record(
                    TransactionType::Withdraw,
                    String::from_str("ckTestBTC"),
                    amount,
                    caller.to_text(),
                    address,
                    TransactionStatus::Pending,
                    Some(block),
                    now,
                );
                let mut s = String::from_str("Withdrawal initiated. Block index: ");
                push_decimal(&mut s, block as u128);
                TextResult::Success(s)
            },
            Ok(Err(e)) => {
                self.record(
                    TransactionType::Withdraw,
                    String::from_str("ckTestBTC"),
                    amount,
                    caller.to_text(),
                    address,
                    TransactionStatus::Failed,
                    None,
                    now,
                );
                TextResult::Failure(join("Withdrawal failed: ", e.as_str()))
            },
            Err(c) => TextResult::Failure(join("Call failed: ", c.as_str())),
        }
    }

    /// An ICP transfer in a local environment: nothing is sent; a confirmed
    /// record with block index 1 stands for it.
    pub fn transfer_icp_local(&mut self, caller: &Principal, to: &Principal, amount: u64, now: u64) -> (r:
        Result<u64, String>)
        requires
            old(self).wf(),
            old(self).log_room(),
            caller.wf(),
            to.wf(),
        ensures
            final(self).wf(),
            final(self).virtual_balances() == old(self).virtual_balances(),
            final(self).custodial_history() == old(self).custodial_history(),
            r == Ok::<u64, String>(1),
            logged(
                old(self).history(),
                final(self).history(),
                TransactionType::Send,
                "ICP"@,
                amount,
                principal_text_of(caller@),
                principal_text_of(to@),
                TransactionStatus::Confirmed,
                now,
                Some(1),
            ),
    {
        self.record(
            TransactionType::Send,
            String::from_str("ICP"),
            amount,
            caller.to_text(),
            to.to_text(),
            TransactionStatus::Confirmed,
            Some(1),
            now,
        );
        Ok(1)
    }

    /// Second phase of an ICP transfer, given the ICP ledger's reply.
    pub fn transfer_icp_finish(
        &mut self,
        caller: &Principal,
        to: &Principal,
        amount: u64,
        outcome: TransferOutcome,
        now: u64,
    ) -> (r: Result<u64, String>)
        requires
            old(self).wf(),
            old(self).log_room(),
            caller.wf(),
            to.wf(),
        ensures
            final(self).wf(),
            final(self).virtual_balances() == old(self).virtual_balances(),
            final(self).custodial_history() == old(self).custodial_history(),
            match outcome {
                Ok(Ok(block)) => r == Ok::<u64, String>(block) && logged(
                    old(self).history(),
                    final(self).history(),
                    TransactionType::Send,
                    "ICP"@,
                    amount,
                    principal_text_of(caller@),
                    principal_text_of(to@),
                    TransactionStatus::Confirmed,
                    now,
                    Some(block),
                ),
                Ok(Err(e)) => err_text(r, "ICP transfer failed: "@ + transfer_error_text(e)) && logged(
                    old(self).history(),
                    final(self).history(),
                    TransactionType::Send,
                    "ICP"@,
                    amount,
                    principal_text_of(caller@),
                    principal_text_of(to@),
                    TransactionStatus::Failed,
                    now,
                    None,
                ),
                Err(c) => err_text(r, "Call failed: "@ + c@) && *final(self) == *old(self),
            },
    {
        match outcome {
            Ok(Ok(block)) => {
                self.record(
                    TransactionType::Send,
                    String::from_str("ICP"),
                    amount,
                    caller.to_text(),
                    to.to_text(),
                    TransactionStatus::Confirmed,
                    Some(block),
                    now,
                );
                Ok(block)
            },
            Ok(Err(e)) => {
                self.record(
                    TransactionType::Send,
                    String::from_str("ICP"),
                    amount,
                    caller.to_text(),
                    to.to_text(),
                    TransactionStatus::Failed,
                    None,
                    now,
                );
                let text = format_transfer_error(&e);
                Err(join("ICP transfer failed: ", text.as_str()))
            },
            Err(c) => Err(join("Call failed: ", c.as_str())),
        }
    }
}

/// What the second phase of a withdrawal does, given the ledger's reply:
/// its result, and the wallet after it.
pub open spec fn withdraw_outcome(
    pre: Wallet,
    post: Wallet,
    caller: Seq<u8>,
    amount: u64,
    outcome: TransferOutcome,
    now: u64,
    r: Result<u64, String>,
) -> bool {
    &&& post.history() == pre.history()
    &&& r is Ok ==> {
        &&& outcome == Ok::<Result<u64, TransferError>, String>(Ok(r->Ok_0))
        &&& pre.vbal(caller) >= amount
        &&& post.virtual_balances() == pre.virtual_balances().insert(
            caller,
            (pre.vbal(caller) - amount) as u64,
        )
        &&& post.total_virtual() + amount == pre.total_virtual()
        &&& custodial_logged(
            pre.custodial_history(),
            post.custodial_history(),
            TransactionType::Withdraw,
            None,
            Some(caller),
            Some(amount),
            Some(amount),
            Some(r->Ok_0),
            TransactionStatus::Confirmed,
            now,
        )
    }
    &&& r is Err ==> {
        &&& post.virtual_balances() == pre.virtual_balances()
        &&& post.total_virtual() == pre.total_virtual()
        &&& custodial_logged(
            pre.custodial_history(),
            post.custodial_history(),
            TransactionType::Withdraw,
            None,
            Some(caller),
            Some(amount),
            Some(amount),
            None,
            TransactionStatus::Failed,
            now,
        )
    }
    &&& match outcome {
        Ok(Ok(block)) => if pre.vbal(caller) >= amount {
            r == Ok::<u64, String>(block)
        } else {
            err_text(r, insufficient_virtual_text(pre.vbal(caller), amount as nat))
        },
        Ok(Err(e)) => err_text(r, "Withdrawal transfer failed: "@ + transfer_error_text(e)),
        Err(m) => err_text(r, "Withdrawal call failed: "@ + m@),
    }
}

/// No double withdrawal: when two withdrawals of one user are settled one after
/// the other, each after a confirmed ledger transfer, and the two amounts
/// together exceed the virtual balance before them, the second one fails and
/// leaves the virtual balances as the first left them; so the balance is
/// lowered once, never below zero.
pub proof fn law_no_double_withdrawal(
    w0: Wallet,
    w1: Wallet,
    w2: Wallet,
    caller: Seq<u8>,
    first: u64,
    second: u64,
    o1: TransferOutcome,
    o2: TransferOutcome,
    t1: u64,
    t2: u64,
    r1: Result<u64, String>,
    r2: Result<u64, String>,
)
    requires
        withdraw_outcome(w0, w1, caller, first, o1, t1, r1),
        withdraw_outcome(w1, w2, caller, second, o2, t2, r2),
        r1 is Ok,
        first + second > w0.vbal(caller),
    ensures
        w1.vbal(caller) == w0.vbal(caller) - first,
        r2 is Err,
        w2.virtual_balances() == w1.virtual_balances(),
{
}

} // verus!
