//! The fingerprint engine: a chained md5 digest over a session's history.
//!
//! A session's fingerprint is seeded from its id and some text, and every
//! accepted action chains the prior fingerprint with the submitted hash.
//! Both operations are pure functions of their inputs, so replaying the same
//! history always reproduces the same fingerprint trace.

use vstd::prelude::*;
use vstd::string::StringExecFns;

verus! {

/// The character for one decimal digit.
pub open spec fn spec_digit_char(d: nat) -> char {
    if d == 0 {
        '0'
    } else if d == 1 {
        '1'
    } else if d == 2 {
        '2'
    } else if d == 3 {
        '3'
    } else if d == 4 {
        '4'
    } else if d == 5 {
        '5'
    } else if d == 6 {
        '6'
    } else if d == 7 {
        '7'
    } else if d == 8 {
        '8'
    } else {
        '9'
    }
}

/// The decimal rendering of `n`, most significant digit first, without
/// leading zeroes (a single `'0'` for zero itself).
pub open spec fn spec_decimal(n: nat) -> Seq<char>
    decreases n,
{
    if n < 10 {
        seq![spec_digit_char(n)]
    } else {
        spec_decimal(n / 10) + seq![spec_digit_char(n % 10)]
    }
}

/// Whether `c` is a lowercase hexadecimal digit.
pub open spec fn spec_is_lower_hex_digit(c: char) -> bool {
    ('0' as u32 <= c as u32 && c as u32 <= '9' as u32) || ('a' as u32 <= c as u32 && c as u32
        <= 'f' as u32)
}

/// The lowercase hexadecimal form of the md5 digest of `s`.
pub uninterp spec fn md5_hex_of(s: Seq<char>) -> Seq<char>;

/// Relies on `md5::compute`, whose digest is a pure function of the input
/// bytes alone, and on `md5::Digest`'s `LowerHex` impl, which prints each of
/// the 16 digest bytes as exactly two lowercase hexadecimal digits.
#[verifier::external_body]
fn md5_hex(s: &str) -> (r: String)
    ensures
        r@ == md5_hex_of(s@),
        r@.len() == 32,
        forall|i: int| 0 <= i < r@.len() ==> spec_is_lower_hex_digit(#[trigger] r@[i]),
{
    format!("{:x}", md5::compute(s))
}

/// One decimal digit as a string slice.
fn digit_str(d: u64) -> (r: &'static str)
    requires
        d < 10,
    ensures
        r@ == seq![spec_digit_char(d as nat)],
{
    let r: &'static str = if d == 0 {
        "0"
    } else if d == 1 {
        "1"
    } else if d == 2 {
        "2"
    } else if d == 3 {
        "3"
    } else if d == 4 {
        "4"
    } else if d == 5 {
        "5"
    } else if d == 6 {
        "6"
    } else if d == 7 {
        "7"
    } else if d == 8 {
        "8"
    } else {
        "9"
    };
    proof {
        reveal_strlit("0");
        reveal_strlit("1");
        reveal_strlit("2");
        reveal_strlit("3");
        reveal_strlit("4");
        reveal_strlit("5");
        reveal_strlit("6");
        reveal_strlit("7");
        reveal_strlit("8");
        reveal_strlit("9");
        assert(r@ =~= seq![spec_digit_char(d as nat)]);
    }
    r
}

/// Appends the decimal rendering of `n` to `s`.
fn push_decimal(s: &mut String, n: u64)
    ensures
        final(s)@ == old(s)@ + spec_decimal(n as nat),
    decreases n,
{
    if n >= 10 {
        push_decimal(s, n / 10);
    }
    let d = digit_str(n % 10);
    s.append(d);
    proof {
        assert(s@ =~= old(s)@ + spec_decimal(n as nat));
    }
}

/// The decimal rendering of `n` as an owned string.
pub fn decimal_string(n: u64) -> (r: String)
    ensures
        r@ == spec_decimal(n as nat),
{
    let mut s = String::new();
    push_decimal(&mut s, n);
    proof {
        assert(s@ =~= spec_decimal(n as nat));
    }
    s
}

/// The seed fingerprint of a session: the digest of the decimal session id
/// followed by the given text.
pub open spec fn spec_seed_fingerprint(id: u64, text: Seq<char>) -> Seq<char> {
    md5_hex_of(spec_decimal(id as nat) + text)
}

/// Computes the seed fingerprint of a session from its id and some text.
pub fn seed_fingerprint(id: u64, text: &str) -> (r: String)
    ensures
        r@ == spec_seed_fingerprint(id, text@),
        r@.len() == 32,
        forall|i: int| 0 <= i < r@.len() ==> spec_is_lower_hex_digit(#[trigger] r@[i]),
{
    let mut s = decimal_string(id);
    s.append(text);
    md5_hex(s.as_str())
}

/// The chained fingerprint: the digest of the prior fingerprint followed by
/// the new input.
pub open spec fn spec_chain_fingerprint(prior: Seq<char>, input: Seq<char>) -> Seq<char> {
    md5_hex_of(prior + input)
}

/// Chains the prior fingerprint with a newly accepted input.
pub fn chain_fingerprint(prior: &str, input: &str) -> (r: String)
    ensures
        r@ == spec_chain_fingerprint(prior@, input@),
        r@.len() == 32,
        forall|i: int| 0 <= i < r@.len() ==> spec_is_lower_hex_digit(#[trigger] r@[i]),
{
    let mut s = prior.to_owned();
    s.append(input);
    md5_hex(s.as_str())
}

} // verus!
