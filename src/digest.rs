//! Hashing and hex encoding: custody sub-accounts and mock deposit addresses.
use vstd::prelude::*;
use vstd::string::*;
use crate::account::Principal;
use crate::text::{hex_of, join};

verus! {

/// Domain-separation tag mixed into every custody sub-account.
pub const CUSTODY_TAG: &'static str = "ckTestBTC_custodial_account";

/// SHA-256 digest of `data`.
pub uninterp spec fn sha256_of(data: Seq<u8>) -> Seq<u8>;

/// Relies on `sha2::Sha256::digest`: the SHA-256 digest of the bytes, 32 bytes long.
#[verifier::external_body]
pub(crate) fn sha256(data: &[u8]) -> (r: Vec<u8>)
    ensures
        r@ == sha256_of(data@),
        r@.len() == 32,
{
    <sha2::Sha256 as sha2::Digest>::digest(data).to_vec()
}

/// Relies on `hex::encode`: two lower-case hexadecimal digits per byte.
#[verifier::external_body]
fn hex_encode(data: &[u8]) -> (r: String)
    ensures
        r@ == hex_of(data@),
{
    hex::encode(data)
}

/// Bytes of a string in its UTF-8 form (the tag is ASCII).
fn tag_bytes() -> (r: Vec<u8>)
    ensures
        r@ == CUSTODY_TAG.spec_bytes(),
{
    let b = CUSTODY_TAG.as_bytes();
    let mut r: Vec<u8> = Vec::new();
    let mut i: usize = 0;
    while i < b.len()
        invariant
            i <= b@.len(),
            r@ == b@.subrange(0, i as int),
        decreases b@.len() - i,
    {
        r.push(b[i]);
        i = i + 1;
    }
    assert(r@ =~= b@);
    r
}

/// The custody sub-account of `user`: SHA-256 of the user's bytes followed by
/// the domain tag. The same user always gets the same 32 bytes.
pub fn generate_subaccount_for_user(user: &Principal) -> (r: Vec<u8>)
    ensures
        r@ == sha256_of(user@ + CUSTODY_TAG.spec_bytes()),
        r@.len() == 32,
{
    let mut data: Vec<u8> = Vec::new();
    let mut i: usize = 0;
    while i < user.bytes.len()
        invariant
            i <= user@.len(),
            data@ == user@.subrange(0, i as int),
        decreases user@.len() - i,
    {
        data.push(user.bytes[i]);
        i = i + 1;
    }
    let mut tag = tag_bytes();
    let ghost first = data@;
    data.append(&mut tag);
    assert(first =~= user@);
    sha256(data.as_slice())
}

/// The mock address for a digest: "tb1q" and the hexadecimal digits of its
/// first 16 bytes.
pub fn address_from_digest(digest: &Vec<u8>) -> (r: String)
    requires
        digest@.len() >= 16,
    ensures
        r@ == "tb1q"@ + hex_of(digest@.subrange(0, 16)),
{
    let mut head: Vec<u8> = Vec::new();
    let mut k: usize = 0;
    while k < 16
        invariant
            digest@.len() >= 16,
            k <= 16,
            head@ == digest@.subrange(0, k as int),
        decreases 16 - k,
    {
        head.push(digest[k]);
        k = k + 1;
    }
    let digits = hex_encode(head.as_slice());
    join("tb1q", digits.as_str())
}

/// The mock test-network address of `owner` (with an optional sub-account):
/// "tb1q" and the first 32 hexadecimal digits of the SHA-256 digest of the
/// owner's bytes followed by the sub-account's.
pub fn mock_btc_address(owner: &Principal, subaccount: &Option<Vec<u8>>) -> (r: String)
    ensures
        r@ == "tb1q"@ + hex_of(
            sha256_of(
                owner@ + match subaccount {
                    Some(s) => s@,
                    None => Seq::<u8>::empty(),
                },
            ).subrange(0, 16),
        ),
{
    let mut data: Vec<u8> = Vec::new();
    let mut i: usize = 0;
    while i < owner.bytes.len()
        invariant
            i <= owner@.len(),
            data@ == owner@.subrange(0, i as int),
        decreases owner@.len() - i,
    {
        data.push(owner.bytes[i]);
        i = i + 1;
    }
    assert(data@ =~= owner@);
    let ghost extra = match subaccount {
        Some(s) => s@,
        None => Seq::<u8>::empty(),
    };
    match subaccount {
        Some(s) => {
            let mut j: usize = 0;
            while j < s.len()
                invariant
                    j <= s@.len(),
                    data@ == owner@ + s@.subrange(0, j as int),
                decreases s@.len() - j,
            {
                data.push(s[j]);
                j = j + 1;
            }
            assert(s@.subrange(0, j as int) =~= s@);
        },
        None => {
            assert(data@ =~= owner@ + Seq::<u8>::empty());
        },
    }
    let digest = sha256(data.as_slice());
    address_from_digest(&digest)
}

} // verus!
