//! Token-bucket quota grammar and HTTP response classification.
//!
//! A quota string is `<positive integer>/<second|sec|minute|min|hour>`;
//! anything else fails client construction. Responses are classified
//! by status: 2xx succeed, 422 carries a validation payload, any other
//! status carries a generic server payload.
use crate::text::find_byte;
use crate::text::find_byte_spec;
use crate::text::lemma_find_byte_range;
use crate::text::parse_i64;
use crate::text::parse_i64_spec;
use crate::text::subvec;
use crate::text::trim_bytes;
use crate::text::trim_spec;
use vstd::prelude::*;
use vstd::string::StrSliceExecFns;
use vstd::utf8::encode_utf8;

verus! {

/// The time unit of a rate quota.
#[derive(Debug, Clone, Copy, PartialEq, Eq, Structural)]
pub enum RateUnit {
    Second,
    Minute,
    Hour,
}

/// A parsed rate quota: at most `count` requests per `unit`.
#[derive(Debug, Clone, Copy, PartialEq, Eq, Structural)]
pub struct RateQuota {
    pub count: u32,
    pub unit: RateUnit,
}

/// Why a quota string was rejected.
#[derive(Debug, Clone, Copy, PartialEq, Eq, Structural)]
pub enum QuotaError {
    /// Not exactly two `/`-separated parts.
    BadShape,
    /// The count part is not an unsigned integer.
    BadCount,
    /// The count part is zero.
    ZeroCount,
    /// The unit part names no known unit.
    BadUnit,
}

/// What `str::parse::<u32>` accepts: an optional `+`, then one or more
/// decimal digits, the value within the range of `u32`.
pub open spec fn parse_u32_spec(s: Seq<u8>) -> Option<int> {
    if s.len() > 0 && s[0] != 45 {
        match parse_i64_spec(s) {
            Some(x) => if 0 <= x <= 0xffff_ffff {
                Some(x)
            } else {
                None
            },
            None => None,
        }
    } else {
        None
    }
}

pub open spec fn sec_bytes() -> Seq<u8> {
    seq![115u8, 101u8, 99u8]
}

pub open spec fn second_bytes() -> Seq<u8> {
    seq![115u8, 101u8, 99u8, 111u8, 110u8, 100u8]
}

pub open spec fn min_bytes() -> Seq<u8> {
    seq![109u8, 105u8, 110u8]
}

pub open spec fn minute_bytes() -> Seq<u8> {
    seq![109u8, 105u8, 110u8, 117u8, 116u8, 101u8]
}

pub open spec fn hour_bytes() -> Seq<u8> {
    seq![104u8, 111u8, 117u8, 114u8]
}

/// The unit a unit-part of the quota string names, if any.
pub open spec fn unit_of(s: Seq<u8>) -> Option<RateUnit> {
    if s == second_bytes() || s == sec_bytes() {
        Some(RateUnit::Second)
    } else if s == minute_bytes() || s == min_bytes() {
        Some(RateUnit::Minute)
    } else if s == hour_bytes() {
        Some(RateUnit::Hour)
    } else {
        None
    }
}

/// The quota grammar: trim, split at `/` into exactly two parts, read
/// the first as a positive integer and the second as a unit name.
pub open spec fn parse_quota_spec(s: Seq<u8>) -> Result<RateQuota, QuotaError> {
    let t = trim_spec(s);
    match find_byte_spec(t, 47, 0) {
        None => Err(QuotaError::BadShape),
        Some(i) => if find_byte_spec(t, 47, i + 1) is Some {
            Err(QuotaError::BadShape)
        } else {
            match parse_u32_spec(t.subrange(0, i)) {
                None => Err(QuotaError::BadCount),
                Some(c) => if c == 0 {
                    Err(QuotaError::ZeroCount)
                } else {
                    match unit_of(t.subrange(i + 1, t.len() as int)) {
                        Some(u) => Ok(RateQuota { count: c as u32, unit: u }),
                        None => Err(QuotaError::BadUnit),
                    }
                },
            }
        },
    }
}

fn parse_u32(v: &Vec<u8>) -> (r: Option<u32>)
    ensures
        match r {
            Some(x) => parse_u32_spec(v@) == Some(x as int),
            None => parse_u32_spec(v@) is None,
        },
{
    if v.len() == 0 || v[0] == 45 {
        return None;
    }
    match parse_i64(v) {
        Some(x) => if 0 <= x && x <= 0xffff_ffff {
            Some(x as u32)
        } else {
            None
        },
        None => None,
    }
}

fn unit_needles() -> (r: (Vec<u8>, Vec<u8>, Vec<u8>, Vec<u8>, Vec<u8>))
    ensures
        r.0@ == sec_bytes(),
        r.1@ == second_bytes(),
        r.2@ == min_bytes(),
        r.3@ == minute_bytes(),
        r.4@ == hour_bytes(),
{
    let mut sec: Vec<u8> = Vec::new();
    sec.push(115);
    sec.push(101);
    sec.push(99);
    let mut second: Vec<u8> = sec.clone();
    second.push(111);
    second.push(110);
    second.push(100);
    let mut min: Vec<u8> = Vec::new();
    min.push(109);
    min.push(105);
    min.push(110);
    let mut minute: Vec<u8> = min.clone();
    minute.push(117);
    minute.push(116);
    minute.push(101);
    let mut hour: Vec<u8> = Vec::new();
    hour.push(104);
    hour.push(111);
    hour.push(117);
    hour.push(114);
    proof {
        assert(sec@ =~= sec_bytes());
        assert(second@ =~= second_bytes());
        assert(min@ =~= min_bytes());
        assert(minute@ =~= minute_bytes());
        assert(hour@ =~= hour_bytes());
    }
    (sec, second, min, minute, hour)
}

fn unit_of_exec(v: &Vec<u8>) -> (r: Option<RateUnit>)
    ensures
        r == unit_of(v@),
{
    let (sec, second, min, minute, hour) = unit_needles();
    if crate::text::bytes_eq(v, &second) || crate::text::bytes_eq(v, &sec) {
        Some(RateUnit::Second)
    } else if crate::text::bytes_eq(v, &minute) || crate::text::bytes_eq(v, &min) {
        Some(RateUnit::Minute)
    } else if crate::text::bytes_eq(v, &hour) {
        Some(RateUnit::Hour)
    } else {
        None
    }
}

/// Parse a quota string such as `30/minute`. Returns the quota exactly
/// when the trimmed input is `<count>/<unit>` with a positive integral
/// count and a unit among `second`, `sec`, `minute`, `min`, `hour`;
/// each rejection names the first rule the input breaks.
pub fn parse_quota(s: &str) -> (r: Result<RateQuota, QuotaError>)
    ensures
        r == parse_quota_spec(encode_utf8(s@)),
{
    let bytes = s.as_bytes_vec();
    let t = trim_bytes(&bytes);
    let tlen = t.len();
    proof {
        lemma_find_byte_range(t@, 47, 0);
    }
    match find_byte(&t, 47, 0) {
        None => Err(QuotaError::BadShape),
        Some(i) => {
            proof {
                lemma_find_byte_range(t@, 47, i + 1 as int);
            }
            match find_byte(&t, 47, i + 1) {
                Some(_) => Err(QuotaError::BadShape),
                None => {
                    let count_part = subvec(&t, 0, i);
                    match parse_u32(&count_part) {
                        None => Err(QuotaError::BadCount),
                        Some(c) => if c == 0 {
                            Err(QuotaError::ZeroCount)
                        } else {
                            let unit_part = subvec(&t, i + 1, tlen);
                            match unit_of_exec(&unit_part) {
                                Some(u) => Ok(RateQuota { count: c, unit: u }),
                                None => Err(QuotaError::BadUnit),
                            }
                        },
                    }
                },
            }
        },
    }
}

/// How a response is handled, decided by its status code.
#[derive(Debug, Clone, Copy, PartialEq, Eq, Structural)]
pub enum ResponseClass {
    /// 2xx: the body is parsed as the expected payload.
    Success,
    /// 422: the body is parsed as a validation-error payload.
    Validation,
    /// Any other status: the body is parsed as a generic error payload.
    ServerError,
}

pub open spec fn classify_status_spec(status: u16) -> ResponseClass {
    if 200 <= status < 300 {
        ResponseClass::Success
    } else if status == 422 {
        ResponseClass::Validation
    } else {
        ResponseClass::ServerError
    }
}

/// Classify a response by its HTTP status code: 2xx succeeds, 422 is a
/// validation failure, anything else is a server failure.
pub fn classify_status(status: u16) -> (r: ResponseClass)
    ensures
        r == classify_status_spec(status),
{
    if 200 <= status && status < 300 {
        ResponseClass::Success
    } else if status == 422 {
        ResponseClass::Validation
    } else {
        ResponseClass::ServerError
    }
}

} // verus!
