//! Verified check of Stripe's signed-webhook scheme.
//!
//! The `stripe-signature` header is a comma-separated list of `k=v`
//! elements; `t` carries the timestamp and each `v1` a candidate
//! signature in hex. The expected tag is HMAC-SHA256 of
//! `timestamp.body` under the endpoint secret, and the header passes
//! exactly when some `v1` element decodes to that tag.

use vstd::prelude::*;

use crate::crypto::{eq_bytes_ct, hmac_sha256, hmac_sha256_of};
use crate::hexcode::{hex_decode, hex_decode_of};
use crate::strutil::str_eq;

verus! {

use vstd::utf8::encode_utf8;

/// Index of the first occurrence of `t` at or after `pos`, or the
/// length when there is none.
pub open spec fn find_char(s: Seq<char>, t: char, pos: int) -> int
    decreases s.len() - pos,
{
    if pos >= s.len() {
        s.len() as int
    } else if s[pos] == t {
        pos
    } else {
        find_char(s, t, pos + 1)
    }
}

pub proof fn lemma_find_char(s: Seq<char>, t: char, pos: int)
    requires
        0 <= pos <= s.len(),
    ensures
        pos <= find_char(s, t, pos) <= s.len(),
        find_char(s, t, pos) < s.len() ==> s[find_char(s, t, pos)] == t,
        forall|j: int| pos <= j < find_char(s, t, pos) ==> s[j] != t,
    decreases s.len() - pos,
{
    if pos < s.len() && s[pos] != t {
        lemma_find_char(s, t, pos + 1);
    }
}

/// The `k=v` elements of the header text from `pos` on. An element
/// without `=` stands as a pair with an empty value.
pub open spec fn sig_pairs(s: Seq<char>, pos: int) -> Seq<(Seq<char>, Seq<char>)>
    decreases s.len() - pos,
{
    if !(0 <= pos <= s.len()) {
        Seq::empty()
    } else {
        let c = find_char(s, ',', pos);
        let e = find_char(s, '=', pos);
        let kv = if e < c {
            (s.subrange(pos, e), s.subrange(e + 1, c))
        } else {
            (s.subrange(pos, c), Seq::<char>::empty())
        };
        if c >= s.len() || c < pos {
            seq![kv]
        } else {
            seq![kv] + sig_pairs(s, c + 1)
        }
    }
}

/// First value bound to `key` in the element list.
pub open spec fn pairs_val(ps: Seq<(Seq<char>, Seq<char>)>, key: Seq<char>) -> Option<Seq<char>>
    decreases ps.len(),
{
    if ps.len() == 0 {
        None
    } else if ps[0].0 == key {
        Some(ps[0].1)
    } else {
        pairs_val(ps.drop_first(), key)
    }
}

/// Whether some `v1` element decodes to exactly the expected tag.
pub open spec fn any_v1_matches(ps: Seq<(Seq<char>, Seq<char>)>, tag: Seq<u8>) -> bool {
    exists|i: int|
        0 <= i < ps.len() && ps[i].0 == "v1"@ && hex_decode_of(ps[i].1) == Some(tag)
}

/// The bytes Stripe signs: the timestamp text, a dot, and the raw body.
pub open spec fn stripe_sig_message(t: Seq<char>, body: Seq<char>) -> Seq<u8> {
    encode_utf8(t) + encode_utf8("."@) + encode_utf8(body)
}

/// The whole scheme: a timestamp element must be present, and some `v1`
/// element must carry the HMAC-SHA256 tag of `timestamp.body` under the
/// secret.
pub open spec fn stripe_sig_ok(secret: Seq<char>, header: Seq<char>, body: Seq<char>) -> bool {
    match pairs_val(sig_pairs(header, 0), "t"@) {
        Some(t) => any_v1_matches(
            sig_pairs(header, 0),
            hmac_sha256_of(encode_utf8(secret), stripe_sig_message(t, body)),
        ),
        None => false,
    }
}

pub open spec fn pairs_view(v: Seq<(String, String)>) -> Seq<(Seq<char>, Seq<char>)> {
    v.map_values(|p: (String, String)| (p.0@, p.1@))
}

fn x_find(s: &str, len: usize, t: char, pos: usize) -> (r: usize)
    requires
        len == s@.len(),
        pos <= len,
    ensures
        r as int == find_char(s@, t, pos as int),
        pos <= r <= len,
{
    proof {
        lemma_find_char(s@, t, pos as int);
    }
    let mut p = pos;
    while p < len && s.get_char(p) != t
        invariant
            len == s@.len(),
            pos <= p <= len,
            find_char(s@, t, pos as int) == find_char(s@, t, p as int),
        decreases len - p,
    {
        p += 1;
    }
    p
}

fn x_sig_pairs(s: &str, len: usize, pos: usize) -> (r: Vec<(String, String)>)
    requires
        len == s@.len(),
        pos <= len,
    ensures
        pairs_view(r@) == sig_pairs(s@, pos as int),
    decreases len - pos,
{
    let c = x_find(s, len, ',', pos);
    let e = x_find(s, len, '=', pos);
    let kv: (String, String) = if e < c {
        (s.substring_char(pos, e).to_owned(), s.substring_char(e + 1, c).to_owned())
    } else {
        (s.substring_char(pos, c).to_owned(), String::new())
    };
    if c >= len {
        let mut v: Vec<(String, String)> = Vec::new();
        v.push(kv);
        proof {
            assert(pairs_view(v@) =~= sig_pairs(s@, pos as int));
        }
        v
    } else {
        let rest = x_sig_pairs(s, len, c + 1);
        let ghost restm = rest@;
        let mut v = rest;
        v.insert(0, kv);
        proof {
            assert(v@.drop_first() =~= restm);
            assert(pairs_view(v@) =~= seq![(v@[0].0@, v@[0].1@)] + pairs_view(restm));
            assert(pairs_view(v@) =~= sig_pairs(s@, pos as int));
        }
        v
    }
}

/// Decide Stripe's signature check for a raw body and header under the
/// endpoint secret.
pub fn stripe_verify(secret: &str, header: &str, body: &str) -> (r: bool)
    ensures
        r == stripe_sig_ok(secret@, header@, body@),
{
    let len = header.unicode_len();
    let pairs = x_sig_pairs(header, len, 0);
    let ghost psm = pairs_view(pairs@);
    let n = pairs.len();
    proof {
        assert(psm.len() == n);
        assert(psm.skip(0) =~= psm);
    }

    // The first `t` element carries the timestamp.
    let mut ti: usize = 0;
    let mut t_found = false;
    while ti < n && !t_found
        invariant
            n == pairs@.len(),
            psm == pairs_view(pairs@),
            psm.len() == n,
            ti <= n,
            !t_found ==> pairs_val(psm, "t"@) == pairs_val(psm.skip(ti as int), "t"@),
            !t_found ==> forall|j: int| 0 <= j < ti ==> psm[j].0 != "t"@,
            t_found ==> ti < n && pairs_val(psm, "t"@) == Some(psm[ti as int].1),
        decreases n - ti, (if t_found { 0int } else { 1int }),
    {
        proof {
            assert(psm.skip(ti as int)[0] == psm[ti as int]);
        }
        if str_eq(pairs[ti].0.as_str(), "t") {
            t_found = true;
        } else {
            proof {
                assert(psm.skip(ti as int).drop_first() =~= psm.skip(ti as int + 1));
            }
            ti += 1;
        }
    }
    if !t_found {
        proof {
            assert(psm.skip(n as int) =~= Seq::<(Seq<char>, Seq<char>)>::empty());
        }
        return false;
    }

    // Expected tag: HMAC-SHA256 of `timestamp.body` under the secret.
    let mut msg = pairs[ti].1.as_str().as_bytes_vec();
    let mut dot = ".".as_bytes_vec();
    msg.append(&mut dot);
    let mut body_bytes = body.as_bytes_vec();
    msg.append(&mut body_bytes);
    let secret_bytes = secret.as_bytes_vec();
    let tag = hmac_sha256(secret_bytes.as_slice(), msg.as_slice());
    proof {
        assert(msg@ =~= stripe_sig_message(psm[ti as int].1, body@));
    }

    // Accept when any `v1` element decodes to the tag; examine them all.
    let mut found = false;
    let mut i: usize = 0;
    while i < n
        invariant
            n == pairs@.len(),
            psm == pairs_view(pairs@),
            psm.len() == n,
            i <= n,
            ti < n,
            tag@ == hmac_sha256_of(encode_utf8(secret@), stripe_sig_message(psm[ti as int].1, body@)),
            pairs_val(psm, "t"@) == Some(psm[ti as int].1),
            found == (exists|j: int|
                0 <= j < i && psm[j].0 == "v1"@ && hex_decode_of(psm[j].1) == Some(tag@)),
        decreases n - i,
    {
        proof {
            assert(psm[i as int] == (pairs@[i as int].0@, pairs@[i as int].1@));
        }
        if str_eq(pairs[i].0.as_str(), "v1") {
            match hex_decode(pairs[i].1.as_str()) {
                Some(bytes) => {
                    if eq_bytes_ct(bytes.as_slice(), tag.as_slice()) {
                        found = true;
                        proof {
                            assert(psm[i as int].0 == "v1"@ && hex_decode_of(psm[i as int].1)
                                == Some(tag@));
                        }
                    }
                },
                None => {},
            }
        }
        i += 1;
    }
    found
}

} // verus!
