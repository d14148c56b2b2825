//! The bridging minter of the test network: deposit addresses, pending
//! deposits that become minted tokens, and withdrawal requests.
use vstd::prelude::*;
use crate::account::{copy_bytes, opt_bytes_view, Account, Principal};
use crate::digest::{mock_btc_address, sha256, sha256_of};
use crate::ledger::AccountView;
use crate::table::TableKey;
use crate::text::hex_of;
use crate::wallet::{is_valid_testbtc_address, valid_testbtc_address};

verus! {

/// Smallest withdrawal, in satoshis.
pub const MIN_WITHDRAWAL_AMOUNT: u64 = 1000;

/// Fee kept from each minted deposit.
pub const DEPOSIT_FEE: u64 = 10;

/// Fee of the minter on a withdrawal.
pub const MINTER_FEE: u64 = 100;

/// Network fee of a withdrawal.
pub const NETWORK_FEE: u64 = 5000;

/// Smallest deposit that is minted.
pub const MIN_UTXO_VALUE: u64 = 1000;

/// Confirmations a deposit needs.
pub const REQUIRED_CONFIRMATIONS: u32 = 6;

/// Block height given to simulated deposits.
pub const MOCK_HEIGHT: u32 = 2_500_000;

#[derive(Clone, Debug, PartialEq, Eq)]
pub struct RetrieveBtcArgs {
    pub address: String,
    pub amount: u64,
}

#[derive(Clone, Debug, PartialEq, Eq)]
pub enum RetrieveBtcError {
    MalformedAddress(String),
    AlreadyProcessing,
    AmountTooLow(u64),
    InsufficientFunds { balance: u64 },
    TemporarilyUnavailable(String),
    GenericError { error_message: String, error_code: u64 },
}

#[derive(Clone, Copy, Debug, PartialEq, Eq)]
pub struct RetrieveBtcOk {
    pub block_index: u64,
}

#[derive(Clone, Debug, PartialEq, Eq)]
pub struct UtxoOutpoint {
    pub txid: Vec<u8>,
    pub vout: u32,
}

#[derive(Clone, Debug, PartialEq, Eq)]
pub struct Utxo {
    pub outpoint: UtxoOutpoint,
    pub value: u64,
    pub height: u32,
}

/// A deposit seen as transaction id, output number, value and height.
pub type UtxoView = (Seq<u8>, u32, u64, u32);

impl View for Utxo {
    type V = UtxoView;

    open spec fn view(&self) -> UtxoView {
        (self.outpoint.txid@, self.outpoint.vout, self.value, self.height)
    }
}

impl Utxo {
    /// A copy with the same view.
    pub fn copy(&self) -> (r: Utxo)
        ensures
            r@ == self@,
    {
        Utxo {
            outpoint: UtxoOutpoint { txid: copy_bytes(&self.outpoint.txid), vout: self.outpoint.vout },
            value: self.value,
            height: self.height,
        }
    }
}

#[derive(Clone, Debug, PartialEq, Eq)]
pub enum UtxoStatus {
    ValueTooSmall(Utxo),
    Tainted(Utxo),
    Checked(Utxo),
    Minted { block_index: u64, minted_amount: u64, utxo: Utxo },
}

#[derive(Clone, Debug, PartialEq, Eq)]
pub enum UpdateBalanceError {
    NoNewUtxos { current_confirmations: Option<u32>, required_confirmations: u32 },
    AlreadyProcessing,
    TemporarilyUnavailable(String),
    GenericError { error_message: String, error_code: u64 },
}

#[derive(Clone, Copy, Debug, PartialEq, Eq)]
pub enum BtcNetwork {
    Mainnet,
    Testnet,
    Regtest,
}

#[derive(Clone, Debug, PartialEq, Eq)]
pub enum RetrieveBtcStatus {
    Unknown,
    Pending,
    Signing,
    Sending { txid: Vec<u8> },
    Submitted { txid: Vec<u8> },
    AmountTooLow,
    Confirmed { txid: Vec<u8> },
}

/// A withdrawal status as its variant number and its transaction id (empty
/// where the variant has none).
pub open spec fn status_view(s: RetrieveBtcStatus) -> (int, Seq<u8>) {
    match s {
        RetrieveBtcStatus::Unknown => (0, Seq::empty()),
        RetrieveBtcStatus::Pending => (1, Seq::empty()),
        RetrieveBtcStatus::Signing => (2, Seq::empty()),
        RetrieveBtcStatus::Sending { txid } => (3, txid@),
        RetrieveBtcStatus::Submitted { txid } => (4, txid@),
        RetrieveBtcStatus::AmountTooLow => (5, Seq::empty()),
        RetrieveBtcStatus::Confirmed { txid } => (6, txid@),
    }
}

impl RetrieveBtcStatus {
    /// A copy with the same variant and transaction id.
    pub fn copy(&self) -> (r: RetrieveBtcStatus)
        ensures
            status_view(r) == status_view(*self),
    {
        match self {
            RetrieveBtcStatus::Unknown => RetrieveBtcStatus::Unknown,
            RetrieveBtcStatus::Pending => RetrieveBtcStatus::Pending,
            RetrieveBtcStatus::Signing => RetrieveBtcStatus::Signing,
            RetrieveBtcStatus::Sending { txid } => RetrieveBtcStatus::Sending { txid: copy_bytes(txid) },
            RetrieveBtcStatus::Submitted { txid } => RetrieveBtcStatus::Submitted {
                txid: copy_bytes(txid),
            },
            RetrieveBtcStatus::AmountTooLow => RetrieveBtcStatus::AmountTooLow,
            RetrieveBtcStatus::Confirmed { txid } => RetrieveBtcStatus::Confirmed {
                txid: copy_bytes(txid),
            },
        }
    }
}

#[derive(Clone, Debug, PartialEq, Eq)]
pub struct GetBtcAddressArgs {
    pub owner: Option<Principal>,
    pub subaccount: Option<Vec<u8>>,
}

#[derive(Clone, Debug, PartialEq, Eq)]
pub struct UpdateBalanceArgs {
    pub owner: Option<Principal>,
    pub subaccount: Option<Vec<u8>>,
}

#[derive(Clone, Debug, PartialEq, Eq)]
pub struct GetKnownUtxosArgs {
    pub owner: Option<Principal>,
    pub subaccount: Option<Vec<u8>>,
}

#[derive(Clone, Copy, Debug, PartialEq, Eq)]
pub struct EstimateWithdrawalFeeArgs {
    pub amount: Option<u64>,
}

#[derive(Clone, Copy, Debug, PartialEq, Eq)]
pub struct EstimateWithdrawalFeeResult {
    pub bitcoin_fee: u64,
    pub minter_fee: u64,
}

#[derive(Clone, Copy, Debug, PartialEq, Eq)]
pub struct RetrieveBtcStatusArgs {
    pub block_index: u64,
}

/// The deposits of `a` in a list of (account, deposit) entries, in order.
pub open spec fn utxos_of(s: Seq<(AccountView, UtxoView)>, a: AccountView) -> Seq<UtxoView>
    decreases s.len(),
{
    if s.len() == 0 {
        Seq::empty()
    } else if s.last().0 == a {
        utxos_of(s.drop_last(), a).push(s.last().1)
    } else {
        utxos_of(s.drop_last(), a)
    }
}

/// The entries of a list that do not belong to `a`, in order.
pub open spec fn without(s: Seq<(AccountView, UtxoView)>, a: AccountView) -> Seq<(AccountView, UtxoView)>
    decreases s.len(),
{
    if s.len() == 0 {
        Seq::empty()
    } else if s.last().0 == a {
        without(s.drop_last(), a)
    } else {
        without(s.drop_last(), a).push(s.last())
    }
}

/// The deposits that are large enough to be minted, in order.
pub open spec fn mintable(p: Seq<UtxoView>) -> Seq<UtxoView>
    decreases p.len(),
{
    if p.len() == 0 {
        Seq::empty()
    } else if p.last().2 >= MIN_UTXO_VALUE {
        mintable(p.drop_last()).push(p.last())
    } else {
        mintable(p.drop_last())
    }
}

/// The status that a pending deposit `u` receives, when the minter's last
/// block index before it was `last`.
pub open spec fn status_for(s: UtxoStatus, u: UtxoView, last: nat) -> bool {
    if u.2 < MIN_UTXO_VALUE {
        s matches UtxoStatus::ValueTooSmall(x) && x@ == u
    } else {
        match s {
            UtxoStatus::Minted { block_index, minted_amount, utxo } => {
                &&& block_index == last + 1
                &&& minted_amount == u.2 - DEPOSIT_FEE
                &&& utxo@ == u
            },
            _ => false,
        }
    }
}

/// The latest status recorded for `block` (unknown when none).
pub open spec fn latest_status(s: Seq<(u64, RetrieveBtcStatus)>, block: u64) -> (int, Seq<u8>)
    decreases s.len(),
{
    if s.len() == 0 {
        (0, Seq::empty())
    } else if s.last().0 == block {
        status_view(s.last().1)
    } else {
        latest_status(s.drop_last(), block)
    }
}

/// The eight little-endian bytes of `n`.
pub open spec fn le_bytes(n: u64) -> Seq<u8> {
    seq![
        (n % 256) as u8,
        (n / 0x100 % 256) as u8,
        (n / 0x1_0000 % 256) as u8,
        (n / 0x100_0000 % 256) as u8,
        (n / 0x1_0000_0000 % 256) as u8,
        (n / 0x100_0000_0000 % 256) as u8,
        (n / 0x1_0000_0000_0000 % 256) as u8,
        (n / 0x100_0000_0000_0000 % 256) as u8,
    ]
}

fn push_le_bytes(data: &mut Vec<u8>, n: u64)
    ensures
        final(data)@ == old(data)@ + le_bytes(n),
{
    let ghost start = data@;
    data.push((n % 256) as u8);
    data.push((n / 0x100 % 256) as u8);
    data.push((n / 0x1_0000 % 256) as u8);
    data.push((n / 0x100_0000 % 256) as u8);
    data.push((n / 0x1_0000_0000 % 256) as u8);
    data.push((n / 0x100_0000_0000 % 256) as u8);
    data.push((n / 0x1_0000_0000_0000 % 256) as u8);
    data.push((n / 0x100_0000_0000_0000 % 256) as u8);
    assert(data@ =~= start + le_bytes(n));
}

/// The account that a request names: the given owner, or else the caller.
pub open spec fn named_account(
    caller: Seq<u8>,
    owner: Option<Principal>,
    subaccount: Option<Vec<u8>>,
) -> AccountView {
    (
        match owner {
            Some(o) => o@,
            None => caller,
        },
        opt_bytes_view(&subaccount),
    )
}

fn named(caller: &Principal, owner: Option<Principal>, subaccount: Option<Vec<u8>>) -> (r: Account)
    ensures
        r@ == named_account(caller@, owner, subaccount),
{
    let owner = match owner {
        Some(o) => o,
        None => caller.copy_key(),
    };
    Account { owner, subaccount }
}

proof fn lemma_mintable_len(p: Seq<UtxoView>)
    ensures
        mintable(p).len() <= p.len(),
    decreases p.len(),
{
    if p.len() > 0 {
        lemma_mintable_len(p.drop_last());
    }
}

/// A list of (account, deposit) entries, seen through their views.
pub open spec fn entries_view(s: Seq<(Account, Utxo)>) -> Seq<(AccountView, UtxoView)> {
    s.map_values(|e: (Account, Utxo)| (e.0@, e.1@))
}

/// The minter's state: minted and pending deposits by account, withdrawal
/// statuses by block index, the last block index, and its own identity.
pub struct Minter {
    known: Vec<(Account, Utxo)>,
    pending: Vec<(Account, Utxo)>,
    withdrawals: Vec<(u64, RetrieveBtcStatus)>,
    block_index: u64,
    id: Principal,
}

impl Minter {
    /// Deposits already minted, with their accounts, oldest first.
    pub closed spec fn known(&self) -> Seq<(AccountView, UtxoView)> {
        entries_view(self.known@)
    }

    /// Deposits waiting to be minted, with their accounts, oldest first.
    pub closed spec fn pending(&self) -> Seq<(AccountView, UtxoView)> {
        entries_view(self.pending@)
    }

    /// Status updates of withdrawal requests, oldest first.
    pub closed spec fn withdrawals(&self) -> Seq<(u64, RetrieveBtcStatus)> {
        self.withdrawals@
    }

    /// The last block index handed out.
    pub closed spec fn last_block(&self) -> u64 {
        self.block_index
    }

    /// The minter's own identity.
    pub closed spec fn own_id(&self) -> Seq<u8> {
        self.id@
    }

    /// A minter with no deposits and no withdrawals.
    pub fn new(id: Principal) -> (r: Minter)
        ensures
            r.known() == Seq::<(AccountView, UtxoView)>::empty(),
            r.pending() == Seq::<(AccountView, UtxoView)>::empty(),
            r.withdrawals() == Seq::<(u64, RetrieveBtcStatus)>::empty(),
            r.last_block() == 0,
            r.own_id() == id@,
    {
        let r = Minter {
            known: Vec::new(),
            pending: Vec::new(),
            withdrawals: Vec::new(),
            block_index: 0,
            id,
        };
        assert(r.known() =~= Seq::<(AccountView, UtxoView)>::empty());
        assert(r.pending() =~= Seq::<(AccountView, UtxoView)>::empty());
        assert(r.withdrawals() =~= Seq::<(u64, RetrieveBtcStatus)>::empty());
        r
    }

    /// Deposit address of the named account.
    pub fn get_btc_address(&self, caller: &Principal, args: GetBtcAddressArgs) -> (r: String)
        ensures
            ({
                let a = named_account(caller@, args.owner, args.subaccount);
                r@ == "tb1q"@ + hex_of(
                    sha256_of(
                        a.0 + match a.1 {
                            Some(s) => s,
                            None => Seq::<u8>::empty(),
                        },
                    ).subrange(0, 16),
                )
            }),
    {
        let account = named(caller, args.owner, args.subaccount);
        mock_btc_address(&account.owner, &account.subaccount)
    }

    /// Minted deposits of the named account, oldest first.
    pub fn get_known_utxos(&self, caller: &Principal, args: GetKnownUtxosArgs) -> (r: Vec<Utxo>)
        ensures
            r@.map_values(|u: Utxo| u@) == utxos_of(
                self.known(),
                named_account(caller@, args.owner, args.subaccount),
            ),
    {
        let account = named(caller, args.owner, args.subaccount);
        let mut r: Vec<Utxo> = Vec::new();
        let mut i: usize = 0;
        while i < self.known.len()
            invariant
                i <= self.known@.len(),
                r@.map_values(|u: Utxo| u@) == utxos_of(
                    entries_view(self.known@).subrange(0, i as int),
                    account@,
                ),
            decreases self.known@.len() - i,
        {
            let ghost pre = r@;
            let ghost ev = entries_view(self.known@);
            proof {
                assert(ev.subrange(0, i + 1).drop_last() =~= ev.subrange(0, i as int));
            }
            if self.known[i].0.same_key(&account) {
                r.push(self.known[i].1.copy());
                assert(r@.map_values(|u: Utxo| u@) =~= pre.map_values(|u: Utxo| u@).push(
                    self.known@[i as int].1@,
                ));
            }
            i = i + 1;
        }
        assert(entries_view(self.known@).subrange(0, i as int) =~= entries_view(self.known@));
        r
    }

    /// Mints the pending deposits of the named account: each deposit below
    /// the smallest value is reported as too small, each other one gets the
    /// next block index, is minted less the deposit fee and becomes known. The
    /// account has no pending deposit afterwards.
    pub fn update_balance(&mut self, caller: &Principal, args: UpdateBalanceArgs) -> (r: Result<
        Vec<UtxoStatus>,
        UpdateBalanceError,
    >)
        ensures
            ({
                let acc = named_account(caller@, args.owner, args.subaccount);
                let mine = utxos_of(old(self).pending(), acc);
                if mine.len() == 0 {
                    &&& r == Err::<Vec<UtxoStatus>, UpdateBalanceError>(
                        UpdateBalanceError::NoNewUtxos {
                            current_confirmations: Some(REQUIRED_CONFIRMATIONS),
                            required_confirmations: REQUIRED_CONFIRMATIONS,
                        },
                    )
                    &&& *final(self) == *old(self)
                } else if old(self).last_block() + mine.len() > u64::MAX {
                    &&& r matches Err(UpdateBalanceError::TemporarilyUnavailable(_))
                    &&& *final(self) == *old(self)
                } else {
                    &&& r is Ok
                    &&& r->Ok_0@.len() == mine.len()
                    &&& forall|t: int|
                        0 <= t < mine.len() ==> status_for(
                            #[trigger] r->Ok_0@[t],
                            mine[t],
                            (old(self).last_block() + mintable(mine.subrange(0, t)).len()) as nat,
                        )
                    &&& final(self).pending() == without(old(self).pending(), acc)
                    &&& final(self).known() == old(self).known() + mintable(mine).map_values(
                        |u: UtxoView| (acc, u),
                    )
                    &&& final(self).last_block() == old(self).last_block() + mintable(mine).len()
                    &&& final(self).withdrawals() == old(self).withdrawals()
                    &&& final(self).own_id() == old(self).own_id()
                }
            }),
    {
        let account = named(caller, args.owner, args.subaccount);
        let ghost acc = account@;
        let ghost pv = entries_view(self.pending@);
        let mut mine: Vec<Utxo> = Vec::new();
        let mut rest: Vec<(Account, Utxo)> = Vec::new();
        let mut i: usize = 0;
        while i < self.pending.len()
            invariant
                i <= self.pending@.len(),
                pv == entries_view(self.pending@),
                acc == account@,
                mine@.map_values(|u: Utxo| u@) == utxos_of(pv.subrange(0, i as int), acc),
                entries_view(rest@) == without(pv.subrange(0, i as int), acc),
            decreases self.pending@.len() - i,
        {
            let ghost pm = mine@;
            let ghost pr = rest@;
            proof {
                assert(pv.subrange(0, i + 1).drop_last() =~= pv.subrange(0, i as int));
            }
            if self.pending[i].0.same_key(&account) {
                mine.push(self.pending[i].1.copy());
                assert(mine@.map_values(|u: Utxo| u@) =~= pm.map_values(|u: Utxo| u@).push(
                    pv[i as int].1,
                ));
            } else {
                rest.push((self.pending[i].0.copy_key(), self.pending[i].1.copy()));
                assert(entries_view(rest@) =~= entries_view(pr).push(pv[i as int]));
            }
            i = i + 1;
        }
        assert(pv.subrange(0, i as int) =~= pv);
        let ghost mv = mine@.map_values(|u: Utxo| u@);
        if mine.len() == 0 {
            return Err(
                UpdateBalanceError::NoNewUtxos {
                    current_confirmations: Some(REQUIRED_CONFIRMATIONS),
                    required_confirmations: REQUIRED_CONFIRMATIONS,
                },
            );
        }
        if self.block_index > u64::MAX - (mine.len() as u64) {
            return Err(
                UpdateBalanceError::TemporarilyUnavailable(String::from_str("Block index exhausted")),
            );
        }
        let ghost start = self.block_index;
        let ghost known0 = entries_view(self.known@);
        let ghost w0 = self.withdrawals@;
        let ghost id0 = self.id@;
        let mut statuses: Vec<UtxoStatus> = Vec::new();
        let mut j: usize = 0;
        while j < mine.len()
            invariant
                j <= mine@.len(),
                mv == mine@.map_values(|u: Utxo| u@),
                acc == account@,
                start + mine@.len() <= u64::MAX,
                statuses@.len() == j,
                forall|t: int|
                    0 <= t < j ==> status_for(
                        #[trigger] statuses@[t],
                        mv[t],
                        (start + mintable(mv.subrange(0, t)).len()) as nat,
                    ),
                self.block_index == start + mintable(mv.subrange(0, j as int)).len(),
                entries_view(self.known@) == known0 + mintable(mv.subrange(0, j as int)).map_values(
                    |u: UtxoView| (acc, u),
                ),
                self.withdrawals@ == w0,
                self.id@ == id0,
            decreases mine@.len() - j,
        {
            proof {
                assert(mv.subrange(0, j + 1).drop_last() =~= mv.subrange(0, j as int));
                lemma_mintable_len(mv.subrange(0, j as int));
            }
            let u = mine[j].copy();
            if u.value < MIN_UTXO_VALUE {
                statuses.push(UtxoStatus::ValueTooSmall(u));
            } else {
                let ghost kv = entries_view(self.known@);
                self.block_index = self.block_index + 1;
                let minted_amount = u.value - DEPOSIT_FEE;
                self.known.push((account.copy_key(), u.copy()));
                assert(entries_view(self.known@) =~= kv.push((acc, mv[j as int])));
                statuses.push(
                    UtxoStatus::Minted { block_index: self.block_index, minted_amount, utxo: u },
                );
                let ghost ms = mintable(mv.subrange(0, j as int));
                assert(mintable(mv.subrange(0, j + 1)) == ms.push(mv[j as int]));
                assert(ms.push(mv[j as int]).map_values(|x: UtxoView| (acc, x)) =~= ms.map_values(
                    |x: UtxoView| (acc, x),
                ).push((acc, mv[j as int])));
            }
            j = j + 1;
        }
        assert(mv.subrange(0, j as int) =~= mv);
        self.pending = rest;
        Ok(statuses)
    }

    /// Fees of a withdrawal, whatever its amount.
    pub fn estimate_withdrawal_fee(&self, args: EstimateWithdrawalFeeArgs) -> (r:
        EstimateWithdrawalFeeResult)
        ensures
            r == (EstimateWithdrawalFeeResult { bitcoin_fee: NETWORK_FEE, minter_fee: MINTER_FEE }),
    {
        EstimateWithdrawalFeeResult { bitcoin_fee: NETWORK_FEE, minter_fee: MINTER_FEE }
    }

    /// Fee kept from each minted deposit.
    pub fn get_deposit_fee(&self) -> (r: u64)
        ensures
            r == DEPOSIT_FEE,
    {
        DEPOSIT_FEE
    }

    /// The minter's own account, which receives tokens to withdraw.
    pub fn get_withdrawal_account(&self) -> (r: Account)
        ensures
            r@ == (self.own_id(), None::<Seq<u8>>),
    {
        Account { owner: self.id.copy_key(), subaccount: None }
    }

    /// Accepts a withdrawal to a well-formed address of at least the smallest
    /// amount, under the next block index, as pending.
    pub fn retrieve_btc(&mut self, args: RetrieveBtcArgs) -> (r: Result<RetrieveBtcOk, RetrieveBtcError>)
        ensures
            !valid_testbtc_address(args.address@) ==> (r matches Err(
                RetrieveBtcError::MalformedAddress(m),
            ) && m@ == "Invalid TestBTC address format"@) && *final(self) == *old(self),
            valid_testbtc_address(args.address@) && args.amount < MIN_WITHDRAWAL_AMOUNT ==> r
                == Err::<RetrieveBtcOk, RetrieveBtcError>(
                RetrieveBtcError::AmountTooLow(MIN_WITHDRAWAL_AMOUNT),
            ) && *final(self) == *old(self),
            valid_testbtc_address(args.address@) && args.amount >= MIN_WITHDRAWAL_AMOUNT
                && old(self).last_block() == u64::MAX ==> (r matches Err(
                RetrieveBtcError::TemporarilyUnavailable(_),
            )) && *final(self) == *old(self),
            valid_testbtc_address(args.address@) && args.amount >= MIN_WITHDRAWAL_AMOUNT
                && old(self).last_block() < u64::MAX ==> {
                &&& r == Ok::<RetrieveBtcOk, RetrieveBtcError>(
                    RetrieveBtcOk { block_index: (old(self).last_block() + 1) as u64 },
                )
                &&& final(self).last_block() == old(self).last_block() + 1
                &&& final(self).withdrawals() == old(self).withdrawals().push(
                    ((old(self).last_block() + 1) as u64, RetrieveBtcStatus::Pending),
                )
                &&& final(self).known() == old(self).known()
                &&& final(self).pending() == old(self).pending()
                &&& final(self).own_id() == old(self).own_id()
            },
    {
        if !is_valid_testbtc_address(args.address.as_str()) {
            return Err(
                RetrieveBtcError::MalformedAddress(String::from_str("Invalid TestBTC address format")),
            );
        }
        if args.amount < MIN_WITHDRAWAL_AMOUNT {
            return Err(RetrieveBtcError::AmountTooLow(MIN_WITHDRAWAL_AMOUNT));
        }
        if self.block_index == u64::MAX {
            return Err(
                RetrieveBtcError::TemporarilyUnavailable(String::from_str("Block index exhausted")),
            );
        }
        self.block_index = self.block_index + 1;
        self.withdrawals.push((self.block_index, RetrieveBtcStatus::Pending));
        Ok(RetrieveBtcOk { block_index: self.block_index })
    }

    /// Latest status of the withdrawal under `args.block_index`; unknown when
    /// there is none.
    pub fn retrieve_btc_status(&self, args: RetrieveBtcStatusArgs) -> (r: RetrieveBtcStatus)
        ensures
            status_view(r) == latest_status(self.withdrawals(), args.block_index),
    {
        let mut i: usize = self.withdrawals.len();
        assert(self.withdrawals@.subrange(0, i as int) =~= self.withdrawals@);
        while i > 0
            invariant
                i <= self.withdrawals@.len(),
                latest_status(self.withdrawals@, args.block_index) == latest_status(
                    self.withdrawals@.subrange(0, i as int),
                    args.block_index,
                ),
            decreases i,
        {
            proof {
                assert(self.withdrawals@.subrange(0, i as int).drop_last() =~= self.withdrawals@.subrange(
                    0,
                    i - 1,
                ));
            }
            if self.withdrawals[i - 1].0 == args.block_index {
                return self.withdrawals[i - 1].1.copy();
            }
            i = i - 1;
        }
        RetrieveBtcStatus::Unknown
    }

    /// Adds a deposit to the pending ones of `account`.
    pub fn add_pending_utxo(&mut self, account: Account, utxo: Utxo)
        ensures
            final(self).pending() == old(self).pending().push((account@, utxo@)),
            final(self).known() == old(self).known(),
            final(self).withdrawals() == old(self).withdrawals(),
            final(self).last_block() == old(self).last_block(),
            final(self).own_id() == old(self).own_id(),
    {
        let ghost pre = self.pending@;
        let ghost e = (account@, utxo@);
        self.pending.push((account, utxo));
        assert(entries_view(self.pending@) =~= entries_view(pre).push(e));
    }

    /// Adds a simulated deposit of `amount` to `account`, made at time `now`:
    /// its transaction id is the SHA-256 digest of the owner's bytes, then the
    /// amount and the time as little-endian bytes.
    pub fn simulate_testbtc_deposit(&mut self, account: Account, amount: u64, now: u64)
        ensures
            final(self).pending() == old(self).pending().push(
                (
                    account@,
                    (
                        sha256_of(account.owner@ + le_bytes(amount) + le_bytes(now)),
                        0u32,
                        amount,
                        MOCK_HEIGHT,
                    ),
                ),
            ),
            final(self).known() == old(self).known(),
            final(self).withdrawals() == old(self).withdrawals(),
            final(self).last_block() == old(self).last_block(),
            final(self).own_id() == old(self).own_id(),
    {
        let mut data = copy_bytes(&account.owner.bytes);
        push_le_bytes(&mut data, amount);
        push_le_bytes(&mut data, now);
        let txid = sha256(data.as_slice());
        let utxo = Utxo { outpoint: UtxoOutpoint { txid, vout: 0 }, value: amount, height: MOCK_HEIGHT };
        self.add_pending_utxo(account, utxo);
    }

    /// Records a new status for the withdrawal under `block_index`.
    pub fn update_withdrawal_status(&mut self, block_index: u64, status: RetrieveBtcStatus)
        ensures
            final(self).withdrawals() == old(self).withdrawals().push((block_index, status)),
            final(self).known() == old(self).known(),
            final(self).pending() == old(self).pending(),
            final(self).last_block() == old(self).last_block(),
            final(self).own_id() == old(self).own_id(),
    {
        self.withdrawals.push((block_index, status));
    }
}

} // verus!
