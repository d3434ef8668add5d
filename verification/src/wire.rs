//! Byte-level building blocks for the JSON wire format.
//!
//! Notification payloads are rendered as UTF-8 byte vectors. Every rendering
//! function is specified against a spec-level sequence so that the engine's
//! contracts can state the exact bytes a notification carries.

use vstd::prelude::*;
use vstd::string::StrSliceExecFns;

verus! {

/// The UTF-8 bytes of a string fragment.
pub open spec fn lit(s: Seq<char>) -> Seq<u8> {
    vstd::utf8::encode_utf8(s)
}

/// Decimal rendering of a natural number, most significant digit first.
pub open spec fn spec_dec(n: nat) -> Seq<u8>
    decreases n,
{
    if n < 10 {
        seq![(48 + n) as u8]
    } else {
        spec_dec(n / 10).push((48 + n % 10) as u8)
    }
}

/// Decimal rendering of a signed number: a minus sign before the magnitude.
pub open spec fn spec_dec_int(n: int) -> Seq<u8> {
    if n < 0 {
        seq![45u8] + spec_dec((-n) as nat)
    } else {
        spec_dec(n as nat)
    }
}

/// Base58 rendering (Bitcoin alphabet) of a byte string.
///
/// The encoding is a pure function of the input bytes; its definition lives in
/// the `bs58` crate and is left uninterpreted here.
pub uninterp spec fn base58_of(b: Seq<u8>) -> Seq<u8>;

/// A JSON string literal (quotes and escapes included) for a character
/// sequence. The escaping rules live in `serde_json` and are left
/// uninterpreted; the rendering is a pure function of the characters.
pub uninterp spec fn json_quoted_of(s: Seq<char>) -> Seq<u8>;

/// Relies on `bs58::encode(..).into_vec()` with the default (Bitcoin)
/// alphabet: the returned bytes depend on the input bytes alone.
#[verifier::external_body]
pub(crate) fn base58_encode(b: &Vec<u8>) -> (r: Vec<u8>)
    ensures
        r@ == base58_of(b@),
{
    bs58::encode(b).into_vec()
}

/// Relies on `serde_json::to_vec` for `&str`: it renders a JSON string
/// literal, quoting and escaping as JSON demands, as a function of the
/// characters alone; serializing a string cannot fail.
#[verifier::external_body]
pub(crate) fn json_quote(s: &str) -> (r: Vec<u8>)
    ensures
        r@ == json_quoted_of(s@),
{
    serde_json::to_vec(s).expect("serializing a string cannot fail")
}

/// Append the bytes of an ASCII-or-UTF-8 string fragment.
pub(crate) fn app_lit(out: &mut Vec<u8>, s: &str)
    ensures
        final(out)@ == old(out)@ + lit(s@),
{
    let mut b = s.as_bytes_vec();
    out.append(&mut b);
}

/// Append the decimal digits of `n`.
pub(crate) fn app_u64(out: &mut Vec<u8>, n: u64)
    ensures
        final(out)@ == old(out)@ + spec_dec(n as nat),
{
    let mut d = dec_u64(n);
    out.append(&mut d);
}

/// Append a copy of `b`.
pub(crate) fn app_bytes(out: &mut Vec<u8>, b: &Vec<u8>)
    ensures
        final(out)@ == old(out)@ + b@,
{
    out.extend_from_slice(b.as_slice());
}

/// Decimal digits of `n`, most significant first.
pub fn dec_u64(n: u64) -> (r: Vec<u8>)
    ensures
        r@ == spec_dec(n as nat),
    decreases n,
{
    if n < 10 {
        let mut v: Vec<u8> = Vec::new();
        v.push(48 + n as u8);
        proof {
            assert(v@ =~= seq![(48 + n as nat) as u8]);
        }
        v
    } else {
        let mut v = dec_u64(n / 10);
        v.push(48 + (n % 10) as u8);
        v
    }
}

/// Decimal digits of `n`, a minus sign first when `n` is negative.
pub fn dec_i64(n: i64) -> (r: Vec<u8>)
    ensures
        r@ == spec_dec_int(n as int),
{
    if n >= 0 {
        dec_u64(n as u64)
    } else {
        let m: u64 = if n == i64::MIN {
            9223372036854775808u64
        } else {
            (-n) as u64
        };
        let mut v: Vec<u8> = Vec::new();
        v.push(45u8);
        let mut d = dec_u64(m);
        v.append(&mut d);
        proof {
            assert(v@ =~= seq![45u8] + spec_dec(m as nat));
        }
        v
    }
}

} // verus!
