//! Identities and ledger accounts.
use vstd::prelude::*;
use crate::table::TableKey;

verus! {

/// Longest byte form of an identity.
pub const MAX_PRINCIPAL_BYTES: usize = 29;

/// Compares two byte strings.
pub fn bytes_eq(a: &Vec<u8>, b: &Vec<u8>) -> (r: bool)
    ensures
        r == (a@ == b@),
{
    if a.len() != b.len() {
        return false;
    }
    let mut i: usize = 0;
    while i < a.len()
        invariant
            a@.len() == b@.len(),
            i <= a@.len(),
            forall|j: int| 0 <= j < i ==> a@[j] == b@[j],
        decreases a@.len() - i,
    {
        if a[i] != b[i] {
            return false;
        }
        i = i + 1;
    }
    assert(a@ =~= b@);
    true
}

/// Copies a byte string.
pub fn copy_bytes(a: &Vec<u8>) -> (r: Vec<u8>)
    ensures
        r@ == a@,
{
    let mut r: Vec<u8> = Vec::new();
    let mut i: usize = 0;
    while i < a.len()
        invariant
            i <= a@.len(),
            r@ == a@.subrange(0, i as int),
        decreases a@.len() - i,
    {
        r.push(a[i]);
        i = i + 1;
    }
    assert(r@ =~= a@);
    r
}

/// Name of a textual identity: the checksummed, grouped base32 form of its bytes.
pub uninterp spec fn principal_text_of(bytes: Seq<u8>) -> Seq<char>;

/// Relies on `candid::Principal::from_slice` (which panics beyond 29 bytes) and
/// `Principal::to_text`, whose output depends on the bytes alone and is written
/// with lower-case base32 letters, digits and dashes.
#[verifier::external_body]
fn principal_text(bytes: &Vec<u8>) -> (r: String)
    requires
        bytes@.len() <= MAX_PRINCIPAL_BYTES,
    ensures
        r@ == principal_text_of(bytes@),
        r.is_ascii(),
{
    candid::Principal::from_slice(bytes.as_slice()).to_text()
}

/// An identity, held as its byte form (at most 29 bytes).
#[derive(Clone, Debug, PartialEq, Eq)]
pub struct Principal {
    pub bytes: Vec<u8>,
}

impl View for Principal {
    type V = Seq<u8>;

    open spec fn view(&self) -> Seq<u8> {
        self.bytes@
    }
}

impl Principal {
    /// The byte form is no longer than an identity can be.
    pub open spec fn wf(&self) -> bool {
        self.bytes@.len() <= MAX_PRINCIPAL_BYTES
    }

    /// The identity with this byte form.
    pub fn from_bytes(bytes: Vec<u8>) -> (r: Principal)
        ensures
            r@ == bytes@,
    {
        Principal { bytes }
    }

    /// Textual form of the identity.
    pub fn to_text(&self) -> (r: String)
        requires
            self.wf(),
        ensures
            r@ == principal_text_of(self@),
            r.is_ascii(),
    {
        principal_text(&self.bytes)
    }
}

impl TableKey for Principal {
    fn same_key(&self, other: &Self) -> (r: bool) {
        bytes_eq(&self.bytes, &other.bytes)
    }

    fn copy_key(&self) -> (r: Self) {
        Principal { bytes: copy_bytes(&self.bytes) }
    }
}

/// Compares two optional byte strings.
pub fn opt_bytes_eq(a: &Option<Vec<u8>>, b: &Option<Vec<u8>>) -> (r: bool)
    ensures
        r == (opt_bytes_view(a) == opt_bytes_view(b)),
{
    match (a, b) {
        (Some(x), Some(y)) => bytes_eq(x, y),
        (None, None) => true,
        _ => false,
    }
}

/// An optional byte string, seen as an optional sequence.
pub open spec fn opt_bytes_view(a: &Option<Vec<u8>>) -> Option<Seq<u8>> {
    match a {
        Some(x) => Some(x@),
        None => None,
    }
}

/// Copies an optional byte string.
pub fn copy_opt_bytes(a: &Option<Vec<u8>>) -> (r: Option<Vec<u8>>)
    ensures
        opt_bytes_view(&r) == opt_bytes_view(a),
{
    match a {
        Some(x) => Some(copy_bytes(x)),
        None => None,
    }
}

/// A ledger account: an owner and an optional sub-account distinguishing
/// several balances of one owner.
#[derive(Clone, Debug, PartialEq, Eq)]
pub struct Account {
    pub owner: Principal,
    pub subaccount: Option<Vec<u8>>,
}

impl View for Account {
    type V = (Seq<u8>, Option<Seq<u8>>);

    open spec fn view(&self) -> (Seq<u8>, Option<Seq<u8>>) {
        (self.owner@, opt_bytes_view(&self.subaccount))
    }
}

impl Account {
    /// The default account of `owner`.
    pub fn of(owner: Principal) -> (r: Account)
        ensures
            r@ == (owner@, None::<Seq<u8>>),
            r.owner@ == owner@,
    {
        Account { owner, subaccount: None }
    }
}

impl TableKey for Account {
    fn same_key(&self, other: &Self) -> (r: bool) {
        bytes_eq(&self.owner.bytes, &other.owner.bytes) && opt_bytes_eq(
            &self.subaccount,
            &other.subaccount,
        )
    }

    fn copy_key(&self) -> (r: Self) {
        Account { owner: self.owner.copy_key(), subaccount: copy_opt_bytes(&self.subaccount) }
    }
}

/// An (owner, spender) pair: the key of an allowance.
#[derive(Clone, Debug, PartialEq, Eq)]
pub struct AllowanceArgs {
    pub account: Account,
    pub spender: Account,
}

impl View for AllowanceArgs {
    type V = ((Seq<u8>, Option<Seq<u8>>), (Seq<u8>, Option<Seq<u8>>));

    open spec fn view(&self) -> Self::V {
        (self.account@, self.spender@)
    }
}

impl TableKey for AllowanceArgs {
    fn same_key(&self, other: &Self) -> (r: bool) {
        self.account.same_key(&other.account) && self.spender.same_key(&other.spender)
    }

    fn copy_key(&self) -> (r: Self) {
        AllowanceArgs { account: self.account.copy_key(), spender: self.spender.copy_key() }
    }
}

} // verus!
