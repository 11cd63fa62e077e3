//! Byte-level text utilities shared by the freshness check, the anchor
//! choice and the playback-candidate ranking: substring search,
//! case folding for ASCII, whitespace trimming and integer parsing.
use vstd::prelude::*;

verus! {

/// ASCII whitespace, the characters `str::trim` removes from the
/// artifact content before it is read as a URL.
pub open spec fn is_ascii_ws(b: u8) -> bool {
    b == 32 || b == 9 || b == 10 || b == 13 || b == 12 || b == 11
}

/// Number of leading whitespace bytes.
pub open spec fn ws_prefix_len(s: Seq<u8>) -> int
    decreases s.len(),
{
    if s.len() > 0 && is_ascii_ws(s[0]) {
        1 + ws_prefix_len(s.drop_first())
    } else {
        0
    }
}

/// Number of trailing whitespace bytes.
pub open spec fn ws_suffix_len(s: Seq<u8>) -> int
    decreases s.len(),
{
    if s.len() > 0 && is_ascii_ws(s.last()) {
        1 + ws_suffix_len(s.drop_last())
    } else {
        0
    }
}

/// The sequence with leading and trailing ASCII whitespace removed.
pub open spec fn trim_spec(s: Seq<u8>) -> Seq<u8> {
    let lo = ws_prefix_len(s);
    let hi = s.len() - ws_suffix_len(s);
    if lo <= hi {
        s.subrange(lo, hi)
    } else {
        Seq::empty()
    }
}

proof fn lemma_ws_prefix_len_bounds(s: Seq<u8>)
    ensures
        0 <= ws_prefix_len(s) <= s.len(),
        forall|j: int| 0 <= j < ws_prefix_len(s) ==> is_ascii_ws(s[j]),
        ws_prefix_len(s) < s.len() ==> !is_ascii_ws(s[ws_prefix_len(s)]),
    decreases s.len(),
{
    if s.len() > 0 && is_ascii_ws(s[0]) {
        lemma_ws_prefix_len_bounds(s.drop_first());
        assert forall|j: int| 0 <= j < ws_prefix_len(s) implies is_ascii_ws(s[j]) by {
            if j >= 1 {
                assert(is_ascii_ws(s.drop_first()[j - 1]));
                assert(s.drop_first()[j - 1] == s[j]);
            }
        }
        if ws_prefix_len(s) < s.len() {
            assert(s.drop_first()[ws_prefix_len(s.drop_first())] == s[ws_prefix_len(s)]);
        }
    }
}

proof fn lemma_ws_prefix_len_is(s: Seq<u8>, i: int)
    requires
        0 <= i <= s.len(),
        forall|j: int| 0 <= j < i ==> is_ascii_ws(s[j]),
        i == s.len() || !is_ascii_ws(s[i]),
    ensures
        ws_prefix_len(s) == i,
    decreases i,
{
    if i == 0 {
    } else {
        assert(is_ascii_ws(s[0]));
        assert(forall|j: int| 0 <= j < i - 1 ==> s.drop_first()[j] == s[j + 1]);
        assert(i - 1 == s.drop_first().len() || !is_ascii_ws(s.drop_first()[i - 1]));
        lemma_ws_prefix_len_is(s.drop_first(), i - 1);
    }
}

proof fn lemma_ws_suffix_len_bounds(s: Seq<u8>)
    ensures
        0 <= ws_suffix_len(s) <= s.len(),
    decreases s.len(),
{
    if s.len() > 0 && is_ascii_ws(s.last()) {
        lemma_ws_suffix_len_bounds(s.drop_last());
    }
}

proof fn lemma_ws_suffix_len_is(s: Seq<u8>, i: int)
    requires
        0 <= i <= s.len(),
        forall|j: int| i <= j < s.len() ==> is_ascii_ws(s[j]),
        i == 0 || !is_ascii_ws(s[i - 1]),
    ensures
        ws_suffix_len(s) == s.len() - i,
    decreases s.len() - i,
{
    if i == s.len() {
    } else {
        assert(is_ascii_ws(s.last()));
        assert(forall|j: int| i <= j < s.drop_last().len() ==> s.drop_last()[j] == s[j]);
        lemma_ws_suffix_len_is(s.drop_last(), i);
    }
}

/// Copy of `v[from..to]`.
pub fn subvec(v: &Vec<u8>, from: usize, to: usize) -> (r: Vec<u8>)
    requires
        from <= to <= v@.len(),
    ensures
        r@ == v@.subrange(from as int, to as int),
{
    let mut r: Vec<u8> = Vec::new();
    let mut i: usize = from;
    while i < to
        invariant
            from <= i <= to <= v@.len(),
            r@ == v@.subrange(from as int, i as int),
        decreases to - i,
    {
        r.push(v[i]);
        proof {
            assert(r@ =~= v@.subrange(from as int, i + 1 as int));
        }
        i = i + 1;
    }
    r
}

/// Trim leading and trailing ASCII whitespace.
pub fn trim_bytes(v: &Vec<u8>) -> (r: Vec<u8>)
    ensures
        r@ == trim_spec(v@),
{
    let len = v.len();
    let mut lo: usize = 0;
    while lo < len && (v[lo] == 32 || v[lo] == 9 || v[lo] == 10 || v[lo] == 13 || v[lo] == 12
        || v[lo] == 11)
        invariant
            0 <= lo <= len == v@.len(),
            forall|j: int| 0 <= j < lo ==> is_ascii_ws(v@[j]),
        decreases len - lo,
    {
        lo = lo + 1;
    }
    proof {
        lemma_ws_prefix_len_is(v@, lo as int);
    }
    let mut hi: usize = len;
    while hi > lo && (v[hi - 1] == 32 || v[hi - 1] == 9 || v[hi - 1] == 10 || v[hi - 1] == 13 || v[
        hi - 1] == 12 || v[hi - 1] == 11)
        invariant
            lo <= hi <= len == v@.len(),
            forall|j: int| hi <= j < len ==> is_ascii_ws(v@[j]),
        decreases hi,
    {
        hi = hi - 1;
    }
    if lo == hi {
        proof {
            assert(forall|j: int| 0 <= j < len ==> is_ascii_ws(v@[j]));
            lemma_ws_prefix_len_is(v@, len as int);
            lemma_ws_suffix_len_bounds(v@);
            assert(trim_spec(v@) =~= Seq::<u8>::empty());
        }
        Vec::new()
    } else {
        proof {
            lemma_ws_suffix_len_is(v@, hi as int);
        }
        subvec(v, lo, hi)
    }
}

/// First position of `b` in `s` at or after `i`.
pub open spec fn find_byte_spec(s: Seq<u8>, b: u8, i: int) -> Option<int>
    decreases s.len() - i when 0 <= i <= s.len()
{
    if i >= s.len() {
        None
    } else if s[i] == b {
        Some(i)
    } else {
        find_byte_spec(s, b, i + 1)
    }
}

pub proof fn lemma_find_byte_range(s: Seq<u8>, b: u8, i: int)
    requires
        0 <= i <= s.len(),
    ensures
        match find_byte_spec(s, b, i) {
            Some(a) => i <= a < s.len() && s[a] == b && forall|j: int| i <= j < a ==> s[j] != b,
            None => forall|j: int| i <= j < s.len() ==> s[j] != b,
        },
    decreases s.len() - i,
{
    if i < s.len() && s[i] != b {
        lemma_find_byte_range(s, b, i + 1);
    }
}

/// First position of `b` in `v` at or after `from`.
pub fn find_byte(v: &Vec<u8>, b: u8, from: usize) -> (r: Option<usize>)
    requires
        from <= v@.len(),
    ensures
        match r {
            Some(a) => find_byte_spec(v@, b, from as int) == Some(a as int) && a < v@.len(),
            None => find_byte_spec(v@, b, from as int) is None,
        },
{
    let len = v.len();
    let mut i: usize = from;
    while i < len && v[i] != b
        invariant
            from <= i <= len == v@.len(),
            find_byte_spec(v@, b, from as int) == find_byte_spec(v@, b, i as int),
        decreases len - i,
    {
        i = i + 1;
    }
    if i < len {
        Some(i)
    } else {
        None
    }
}

/// Byte-for-byte equality.
pub fn bytes_eq(a: &Vec<u8>, b: &Vec<u8>) -> (r: bool)
    ensures
        r == (a@ == b@),
{
    if a.len() != b.len() {
        proof {
            assert(a@ != b@);
        }
        return false;
    }
    let len = a.len();
    let mut i: usize = 0;
    while i < len
        invariant
            0 <= i <= len,
            len == a@.len() == b@.len(),
            forall|j: int| 0 <= j < i ==> a@[j] == b@[j],
        decreases len - i,
    {
        if a[i] != b[i] {
            return false;
        }
        i = i + 1;
    }
    proof {
        assert(a@ =~= b@);
    }
    true
}

/// `n` occurs in `s` starting at position `i`.
pub open spec fn match_at(s: Seq<u8>, n: Seq<u8>, i: int) -> bool {
    0 <= i && i + n.len() <= s.len() && s.subrange(i, i + n.len()) == n
}

/// `n` occurs somewhere in `s`.
pub open spec fn contains_spec(s: Seq<u8>, n: Seq<u8>) -> bool {
    exists|i: int| match_at(s, n, i)
}

/// Substring search; `r` holds exactly when `n` occurs in `s`.
pub fn contains_bytes(s: &Vec<u8>, n: &Vec<u8>) -> (r: bool)
    ensures
        r == contains_spec(s@, n@),
{
    let slen = s.len();
    let nlen = n.len();
    if nlen > slen {
        proof {
            assert(forall|i: int| !match_at(s@, n@, i));
        }
        return false;
    }
    if nlen == 0 {
        proof {
            assert(s@.subrange(0, 0) =~= n@);
            assert(match_at(s@, n@, 0));
        }
        return true;
    }
    let mut i: usize = 0;
    while i <= slen - nlen
        invariant
            0 <= i <= slen - nlen + 1,
            1 <= nlen <= slen,
            slen == s@.len(),
            nlen == n@.len(),
            forall|k: int| 0 <= k < i ==> !match_at(s@, n@, k),
        decreases slen - i,
    {
        let mut j: usize = 0;
        let mut eq = true;
        while j < nlen
            invariant
                0 <= j <= nlen,
                i + nlen <= slen,
                slen == s@.len(),
                nlen == n@.len(),
                eq ==> forall|t: int| 0 <= t < j ==> s@[i + t] == n@[t],
                !eq ==> !match_at(s@, n@, i as int),
            decreases nlen - j,
        {
            if s[i + j] != n[j] {
                proof {
                    if match_at(s@, n@, i as int) {
                        assert(s@.subrange(i as int, i + nlen)[j as int] == n@[j as int]);
                    }
                }
                eq = false;
            }
            j = j + 1;
        }
        if eq {
            proof {
                assert(s@.subrange(i as int, i + nlen) =~= n@);
                assert(match_at(s@, n@, i as int));
            }
            return true;
        }
        i = i + 1;
    }
    proof {
        assert(forall|k: int| i <= k ==> !match_at(s@, n@, k));
    }
    false
}

/// ASCII lower-casing of a single byte.
pub open spec fn lower_byte(b: u8) -> u8 {
    if 65 <= b && b <= 90 {
        (b + 32) as u8
    } else {
        b
    }
}

/// ASCII lower-casing of a byte sequence; bytes of multi-byte UTF-8
/// characters are above 127 and pass through unchanged.
pub open spec fn lower_seq(s: Seq<u8>) -> Seq<u8> {
    s.map_values(|b: u8| lower_byte(b))
}

/// ASCII lower-casing.
pub fn lower_bytes(v: &Vec<u8>) -> (r: Vec<u8>)
    ensures
        r@ == lower_seq(v@),
{
    let len = v.len();
    let mut r: Vec<u8> = Vec::new();
    let mut i: usize = 0;
    while i < len
        invariant
            0 <= i <= len == v@.len(),
            r@.len() == i,
            forall|j: int| 0 <= j < i ==> r@[j] == lower_byte(v@[j]),
        decreases len - i,
    {
        let b = v[i];
        if 65 <= b && b <= 90 {
            r.push(b + 32);
        } else {
            r.push(b);
        }
        i = i + 1;
    }
    proof {
        assert(r@ =~= lower_seq(v@));
    }
    r
}

/// `n` occurs in `s` up to ASCII case of `s`; `n` is expected in lower case.
pub open spec fn contains_ci_spec(s: Seq<u8>, n: Seq<u8>) -> bool {
    contains_spec(lower_seq(s), n)
}

/// Case-insensitive (ASCII) substring search.
pub fn contains_bytes_ci(s: &Vec<u8>, n: &Vec<u8>) -> (r: bool)
    ensures
        r == contains_ci_spec(s@, n@),
{
    let lowered = lower_bytes(s);
    contains_bytes(&lowered, n)
}

/// A decimal digit byte.
pub open spec fn is_digit(b: u8) -> bool {
    48 <= b && b <= 57
}

pub open spec fn all_digits(s: Seq<u8>) -> bool {
    forall|i: int| 0 <= i < s.len() ==> is_digit(s[i])
}

/// Value of a digit string read in base ten.
pub open spec fn digits_val(s: Seq<u8>) -> int
    decreases s.len(),
{
    if s.len() == 0 {
        0
    } else {
        10 * digits_val(s.drop_last()) + (s.last() - 48)
    }
}

proof fn lemma_digits_val_take_succ(s: Seq<u8>, i: int)
    requires
        0 <= i < s.len(),
    ensures
        digits_val(s.take(i + 1)) == 10 * digits_val(s.take(i)) + (s[i] - 48),
{
    assert(s.take(i + 1).drop_last() =~= s.take(i));
    assert(s.take(i + 1).last() == s[i]);
}

proof fn lemma_digits_val_nonneg(s: Seq<u8>)
    requires
        all_digits(s),
    ensures
        digits_val(s) >= 0,
    decreases s.len(),
{
    if s.len() > 0 {
        assert(all_digits(s.drop_last()));
        lemma_digits_val_nonneg(s.drop_last());
    }
}

/// What `str::parse::<i64>` accepts: an optional sign, then one or
/// more decimal digits, the value within the range of `i64`.
pub open spec fn parse_i64_spec(s: Seq<u8>) -> Option<int> {
    let neg = s.len() > 0 && s[0] == 45;
    let signed = s.len() > 0 && (s[0] == 45 || s[0] == 43);
    let ds = if signed {
        s.drop_first()
    } else {
        s
    };
    if ds.len() > 0 && all_digits(ds) {
        let v = if neg {
            -digits_val(ds)
        } else {
            digits_val(ds)
        };
        if -0x8000_0000_0000_0000 <= v <= 0x7fff_ffff_ffff_ffff {
            Some(v)
        } else {
            None
        }
    } else {
        None
    }
}

/// Parse a decimal integer as `str::parse::<i64>` would.
pub fn parse_i64(v: &Vec<u8>) -> (r: Option<i64>)
    ensures
        match r {
            Some(x) => parse_i64_spec(v@) == Some(x as int),
            None => parse_i64_spec(v@) is None,
        },
{
    let len = v.len();
    let mut start: usize = 0;
    let mut neg = false;
    if len > 0 && (v[0] == 45 || v[0] == 43) {
        neg = v[0] == 45;
        start = 1;
    }
    if start >= len {
        return None;
    }
    let ghost ds = if start == 1 {
        v@.drop_first()
    } else {
        v@
    };
    proof {
        assert(forall|j: int| 0 <= j < ds.len() ==> ds[j] == v@[j + start]);
    }
    let mut i: usize = start;
    let mut acc: u128 = 0;
    let mut over = false;
    while i < len
        invariant
            start <= i <= len == v@.len(),
            start <= 1,
            (start == 1) == (v@.len() > 0 && (v@[0] == 45 || v@[0] == 43)),
            neg == (v@.len() > 0 && v@[0] == 45),
            ds == (if start == 1 {
                v@.drop_first()
            } else {
                v@
            }),
            ds.len() == len - start,
            forall|j: int| 0 <= j < ds.len() ==> ds[j] == v@[j + start],
            all_digits(ds.take(i - start)),
            !over ==> acc == digits_val(ds.take(i - start)) && acc
                <= 0x8000_0000_0000_0000u128,
            over ==> digits_val(ds.take(i - start)) > 0x8000_0000_0000_0000,
        decreases len - i,
    {
        let b = v[i];
        if b < 48 || b > 57 {
            proof {
                assert(!is_digit(ds[i - start]));
                assert(!all_digits(ds));
            }
            return None;
        }
        proof {
            assert(ds.take(i - start + 1) =~= ds.take(i - start).push(ds[i - start]));
            lemma_digits_val_take_succ(ds, i - start);
        }
        if over {
            proof {
                lemma_digits_val_nonneg(ds.take(i - start));
            }
        } else {
            acc = acc * 10 + ((b - 48) as u128);
            if acc > 0x8000_0000_0000_0000u128 {
                over = true;
            }
        }
        i = i + 1;
    }
    proof {
        assert(ds.take(i - start) =~= ds);
        lemma_digits_val_nonneg(ds);
    }
    if over {
        return None;
    }
    if neg {
        if acc == 0x8000_0000_0000_0000u128 {
            Some(i64::MIN)
        } else {
            Some(-((acc as u64) as i64))
        }
    } else {
        if acc <= 0x7fff_ffff_ffff_ffffu128 {
            Some((acc as u64) as i64)
        } else {
            None
        }
    }
}

} // verus!
