//! Freshness check for the playback artifact: the artifact's one-line
//! content is a URL whose `Expires` query parameter carries a Unix
//! timestamp. A missing artifact, or one without a parsable `Expires`
//! value, counts as expired; otherwise the artifact is expired exactly
//! when the timestamp has been reached. Surrounding whitespace is
//! tolerated; the trimming covers the ASCII whitespace characters,
//! which is all a self-written artifact can carry.
use crate::text::bytes_eq;
use crate::text::find_byte;
use crate::text::find_byte_spec;
use crate::text::lemma_find_byte_range;
use crate::text::parse_i64;
use crate::text::parse_i64_spec;
use crate::text::subvec;
use crate::text::trim_bytes;
use crate::text::trim_spec;
use vstd::prelude::*;
use vstd::string::StrSliceExecFns;
use vstd::utf8::encode_utf8;

verus! {

/// The bytes of the query key `Expires`.
pub open spec fn expires_key() -> Seq<u8> {
    seq![69u8, 120u8, 112u8, 105u8, 114u8, 101u8, 115u8]
}

/// The query portion of a URL: everything between the first `?` and
/// the fragment, empty when there is no `?` before the fragment.
pub open spec fn query_of(u: Seq<u8>) -> Seq<u8> {
    let limit = match find_byte_spec(u, 35, 0) {
        None => u.len() as int,
        Some(h) => h,
    };
    match find_byte_spec(u.subrange(0, limit), 63, 0) {
        None => Seq::empty(),
        Some(q) => u.subrange(0, limit).subrange(q + 1, limit),
    }
}

/// The expiry carried by one `key=value` query pair: the value read as
/// an integer when the key is `Expires`, nothing otherwise.
pub open spec fn pair_expiry(p: Seq<u8>) -> Option<int> {
    match find_byte_spec(p, 61, 0) {
        None => None,
        Some(e) => if p.subrange(0, e) == expires_key() {
            parse_i64_spec(p.subrange(e + 1, p.len() as int))
        } else {
            None
        },
    }
}

/// The expiry of the first `Expires` pair with an integer value in the
/// query starting at position `i`; pairs are separated by `&`.
pub open spec fn query_expiry_from(q: Seq<u8>, i: int) -> Option<int>
    decreases q.len() - i when 0 <= i <= q.len() via query_expiry_from_decreases
{
    match find_byte_spec(q, 38, i) {
        None => pair_expiry(q.subrange(i, q.len() as int)),
        Some(a) => match pair_expiry(q.subrange(i, a)) {
            Some(t) => Some(t),
            None => query_expiry_from(q, a + 1),
        },
    }
}

#[via_fn]
proof fn query_expiry_from_decreases(q: Seq<u8>, i: int) {
    lemma_find_byte_range(q, 38, i);
}

/// The expiry timestamp embedded in an artifact's content: the content
/// is trimmed of surrounding whitespace and its URL query is searched
/// for an `Expires` parameter with an integer value.
pub open spec fn artifact_expiry(content: Seq<u8>) -> Option<int> {
    query_expiry_from(query_of(trim_spec(content)), 0)
}

/// Whether an artifact is expired at time `now`: a missing artifact is
/// expired, one without a parsable expiry is expired, and one with
/// expiry `t` is expired exactly when `now >= t`.
pub open spec fn strm_expired_spec(content: Option<Seq<u8>>, now: int) -> bool {
    match content {
        None => true,
        Some(bytes) => match artifact_expiry(bytes) {
            None => true,
            Some(t) => now >= t,
        },
    }
}

/// The byte view of an optional artifact content string.
pub open spec fn content_view(c: Option<Seq<char>>) -> Option<Seq<u8>> {
    match c {
        None => None,
        Some(text) => Some(encode_utf8(text)),
    }
}

fn expires_needle() -> (r: Vec<u8>)
    ensures
        r@ == expires_key(),
{
    let mut v: Vec<u8> = Vec::new();
    v.push(69);
    v.push(120);
    v.push(112);
    v.push(105);
    v.push(114);
    v.push(101);
    v.push(115);
    proof {
        assert(v@ =~= expires_key());
    }
    v
}

fn pair_expiry_exec(p: &Vec<u8>) -> (r: Option<i64>)
    ensures
        match r {
            Some(t) => pair_expiry(p@) == Some(t as int),
            None => pair_expiry(p@) is None,
        },
{
    let plen = p.len();
    match find_byte(p, 61, 0) {
        None => None,
        Some(e) => {
            let key = subvec(p, 0, e);
            let needle = expires_needle();
            if bytes_eq(&key, &needle) {
                let val = subvec(p, e + 1, plen);
                parse_i64(&val)
            } else {
                None
            }
        },
    }
}

fn query_expiry_exec(q: &Vec<u8>) -> (r: Option<i64>)
    ensures
        match r {
            Some(t) => query_expiry_from(q@, 0) == Some(t as int),
            None => query_expiry_from(q@, 0) is None,
        },
{
    let len = q.len();
    let mut i: usize = 0;
    loop
        invariant
            0 <= i <= len == q@.len(),
            query_expiry_from(q@, 0) == query_expiry_from(q@, i as int),
        decreases len - i,
    {
        proof {
            lemma_find_byte_range(q@, 38, i as int);
        }
        let upper = match find_byte(q, 38, i) {
            Some(a) => a,
            None => len,
        };
        let pv = subvec(q, i, upper);
        let step = pair_expiry_exec(&pv);
        match step {
            Some(t) => {
                return Some(t);
            },
            None => {
                if upper == len {
                    return None;
                }
                i = upper + 1;
            },
        }
    }
}

/// The expiry timestamp found in artifact content bytes, when one is
/// present and fits in an `i64`.
pub fn artifact_expiry_of(bytes: &Vec<u8>) -> (r: Option<i64>)
    ensures
        match r {
            Some(t) => artifact_expiry(bytes@) == Some(t as int),
            None => artifact_expiry(bytes@) is None,
        },
{
    let u = trim_bytes(bytes);
    let ulen = u.len();
    let limit = match find_byte(&u, 35, 0) {
        Some(h) => h,
        None => ulen,
    };
    let head = subvec(&u, 0, limit);
    match find_byte(&head, 63, 0) {
        None => {
            proof {
                assert(query_of(trim_spec(bytes@)) =~= Seq::<u8>::empty());
                assert(query_expiry_from(Seq::<u8>::empty(), 0) is None);
            }
            None
        },
        Some(qpos) => {
            let q = subvec(&head, qpos + 1, limit);
            query_expiry_exec(&q)
        },
    }
}

/// Whether the artifact is expired at time `now`. A missing artifact
/// (`None`), content without a parsable `Expires` query parameter, or
/// an `Expires` value already reached all mean expired.
pub fn is_strm_expired(content: &Option<String>, now: i64) -> (r: bool)
    ensures
        r == strm_expired_spec(
            content_view(
                match content {
                    Some(s) => Some(s@),
                    None => None,
                },
            ),
            now as int,
        ),
{
    match content {
        None => true,
        Some(s) => {
            let bytes = s.as_str().as_bytes_vec();
            match artifact_expiry_of(&bytes) {
                None => true,
                Some(t) => now >= t,
            }
        },
    }
}

/// The freshness rule: a missing artifact is always expired; with a
/// parsable expiry `t` the artifact is expired exactly when `t <= now`;
/// without a parsable expiry it is expired.
pub proof fn lemma_freshness_rule(content: Seq<char>, now: int)
    ensures
        strm_expired_spec(content_view(None), now),
        artifact_expiry(encode_utf8(content)) matches Some(t) ==> (strm_expired_spec(
            content_view(Some(content)),
            now,
        ) <==> now >= t),
        artifact_expiry(encode_utf8(content)) is None ==> strm_expired_spec(
            content_view(Some(content)),
            now,
        ),
{
}

} // verus!
