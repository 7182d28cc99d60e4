//! Cryptographic primitives the signature verifiers rest on.
//!
//! The HMAC tag and the base64 text are computed by outside crates; each
//! is named by an uninterpreted spec function, since both are pure
//! functions of their inputs. Everything downstream of these two calls —
//! header parsing, hex decoding, comparisons — is verified code.

use vstd::prelude::*;

use base64::Engine;
use hmac::Mac;

verus! {

use vstd::slice::slice_index_get;

/// The HMAC-SHA256 tag of `msg` under `key` (RFC 2104 with SHA-256): a
/// function of the key and the message alone.
pub uninterp spec fn hmac_sha256_of(key: Seq<u8>, msg: Seq<u8>) -> Seq<u8>;

/// The standard base64 encoding, with padding, of `data`: a function of
/// the data alone.
pub uninterp spec fn base64_of(data: Seq<u8>) -> Seq<char>;

/// Relies on the `hmac` crate's `Hmac<sha2::Sha256>`: `new_from_slice`
/// accepts a key of any length, and the finalized tag is 32 bytes
/// computed from the key and the fed message alone.
#[verifier::external_body]
pub fn hmac_sha256(key: &[u8], msg: &[u8]) -> (r: Vec<u8>)
    ensures
        r@ == hmac_sha256_of(key@, msg@),
        r@.len() == 32,
{
    let mut mac = <hmac::Hmac<sha2::Sha256> as hmac::Mac>::new_from_slice(key)
        .expect("HMAC-SHA256 accepts keys of any length");
    mac.update(msg);
    mac.finalize().into_bytes().to_vec()
}

/// Relies on the `base64` crate's `STANDARD` engine: the encoding is a
/// function of the input bytes alone.
#[verifier::external_body]
pub fn base64_encode(data: &[u8]) -> (r: String)
    ensures
        r@ == base64_of(data@),
{
    base64::engine::general_purpose::STANDARD.encode(data)
}

/// Byte-string equality that examines every position of equal-length
/// inputs rather than stopping at the first difference, so that the
/// comparison of an attacker-supplied signature takes time independent
/// of where it diverges.
pub fn eq_bytes_ct(a: &[u8], b: &[u8]) -> (r: bool)
    ensures
        r == (a@ == b@),
{
    let la = a.len();
    let lb = b.len();
    if la != lb {
        assert(a@.len() != b@.len());
        return false;
    }
    let mut neq = false;
    let mut i: usize = 0;
    while i < la
        invariant
            la == a@.len(),
            la == b@.len(),
            i <= la,
            neq == !(forall|j: int| 0 <= j < i ==> a@[j] == b@[j]),
        decreases la - i,
    {
        if *slice_index_get(a, i) != *slice_index_get(b, i) {
            neq = true;
        }
        i += 1;
    }
    if neq {
        assert(a@ != b@);
        false
    } else {
        proof {
            assert(a@ =~= b@);
        }
        true
    }
}

/// Character-wise equality in the same style, for base64 signature text.
pub fn eq_str_ct(a: &str, b: &str) -> (r: bool)
    ensures
        r == (a@ == b@),
{
    let la = a.unicode_len();
    let lb = b.unicode_len();
    if la != lb {
        assert(a@.len() != b@.len());
        return false;
    }
    let mut neq = false;
    let mut i: usize = 0;
    while i < la
        invariant
            la == a@.len(),
            la == b@.len(),
            i <= la,
            neq == !(forall|j: int| 0 <= j < i ==> a@[j] == b@[j]),
        decreases la - i,
    {
        if a.get_char(i) != b.get_char(i) {
            neq = true;
        }
        i += 1;
    }
    if neq {
        assert(a@ != b@);
        false
    } else {
        proof {
            assert(a@ =~= b@);
        }
        true
    }
}

} // verus!
