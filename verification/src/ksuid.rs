//! Minting and modelling of the K-sortable message identifier.
//!
//! An identifier is a 27-character base-62 string: the fixed-width base-62
//! rendering of a 160-bit value whose upper 32 bits hold the seconds since a
//! fixed epoch at which the identifier was minted.
use vstd::prelude::*;
use vstd::arithmetic::div_mod::lemma_div_is_ordered;
use vstd::arithmetic::power2::lemma_pow2_pos;
use vstd::arithmetic::power2::pow2;
use svix_ksuid::Ksuid;
use svix_ksuid::KsuidLike;

verus! {

/// The base-62 alphabet in order: decimal digits, upper-case letters,
/// lower-case letters.
pub open spec fn is_base62(c: char) -> bool {
    ('0' <= c && c <= '9') || ('A' <= c && c <= 'Z') || ('a' <= c && c <= 'z')
}

/// The value of one base-62 digit character.
pub open spec fn base62_digit(c: char) -> int {
    if '0' <= c && c <= '9' {
        c as int - '0' as int
    } else if 'A' <= c && c <= 'Z' {
        10 + c as int - 'A' as int
    } else {
        36 + c as int - 'a' as int
    }
}

pub open spec fn pow62(n: nat) -> int
    decreases n,
{
    if n == 0 {
        1
    } else {
        62 * pow62((n - 1) as nat)
    }
}

/// The integer that a big-endian base-62 digit string denotes.
pub open spec fn ksuid_value(s: Seq<char>) -> int
    decreases s.len(),
{
    if s.len() == 0 {
        0
    } else {
        base62_digit(s[0]) * pow62((s.len() - 1) as nat) + ksuid_value(s.skip(1))
    }
}

pub open spec fn all_base62(s: Seq<char>) -> bool {
    forall|i: int| 0 <= i < s.len() ==> is_base62(#[trigger] s[i])
}

/// The divisor that isolates the embedded seconds: the identifier value is
/// `seconds * 2^128 + payload` with the payload below `2^128`.
pub open spec fn ts_modulus() -> int {
    pow2(128) as int
}

/// Identifier values come from twenty bytes, so they lie below `2^160`.
pub open spec fn id_space() -> int {
    pow2(160) as int
}

/// The fixed epoch: identifier second zero is this Unix second.
pub open spec fn id_epoch_seconds() -> int {
    1_400_000_000
}

/// A well-formed identifier string: 27 base-62 characters denoting a
/// twenty-byte value.
pub open spec fn valid_ksuid(s: Seq<char>) -> bool {
    &&& s.len() == 27
    &&& all_base62(s)
    &&& ksuid_value(s) < id_space()
}

/// The Unix second embedded in an identifier string.
pub open spec fn decoded_seconds(s: Seq<char>) -> int {
    ksuid_value(s) / ts_modulus() + id_epoch_seconds()
}

/// Strict lexicographic order on character sequences.
pub open spec fn lex_lt(a: Seq<char>, b: Seq<char>) -> bool
    decreases a.len(),
{
    if b.len() == 0 {
        false
    } else if a.len() == 0 {
        true
    } else if a[0] != b[0] {
        a[0] < b[0]
    } else {
        lex_lt(a.skip(1), b.skip(1))
    }
}

/// Relies on `svix_ksuid::Ksuid::now` and `Display` (the identifier is the
/// base-62 rendering of the twenty identifier bytes, left-padded with `'0'`
/// to 27 characters) and on `KsuidLike::timestamp_seconds` (the big-endian
/// seconds in the first four bytes plus the fixed epoch second
/// 1_400_000_000, hence exactly the value embedded in the rendered string).
#[verifier::external_body]
fn mint_raw() -> (r: (String, i64))
    ensures
        valid_ksuid(r.0@),
        r.1 as int == decoded_seconds(r.0@),
{
    let k = Ksuid::now(None);
    (k.to_string(), k.timestamp_seconds())
}

proof fn lemma_pow62_pos(n: nat)
    ensures
        pow62(n) >= 1,
    decreases n,
{
    if n > 0 {
        lemma_pow62_pos((n - 1) as nat);
    }
}

proof fn lemma_value_bounds(s: Seq<char>)
    requires
        all_base62(s),
    ensures
        0 <= ksuid_value(s) < pow62(s.len()),
    decreases s.len(),
{
    if s.len() > 0 {
        let d = base62_digit(s[0]);
        assert(is_base62(s[0]));
        assert(0 <= d < 62);
        assert(all_base62(s.skip(1)));
        lemma_value_bounds(s.skip(1));
        let p = pow62((s.len() - 1) as nat);
        lemma_pow62_pos((s.len() - 1) as nat);
        let t = ksuid_value(s.skip(1));
        assert(0 <= d * p + t < 62 * p) by (nonlinear_arith)
            requires
                0 <= d < 62,
                p >= 1,
                0 <= t < p,
        ;
    }
}

proof fn lemma_digit_order(c: char, d: char)
    requires
        is_base62(c),
        is_base62(d),
        base62_digit(c) < base62_digit(d),
    ensures
        c < d,
{
}

proof fn lemma_digit_injective(c: char, d: char)
    requires
        is_base62(c),
        is_base62(d),
        base62_digit(c) == base62_digit(d),
    ensures
        c == d,
{
}

proof fn lemma_value_order(a: Seq<char>, b: Seq<char>)
    requires
        a.len() == b.len(),
        all_base62(a),
        all_base62(b),
        ksuid_value(a) < ksuid_value(b),
    ensures
        lex_lt(a, b),
    decreases a.len(),
{
    assert(a.len() > 0);
    let da = base62_digit(a[0]);
    let db = base62_digit(b[0]);
    let p = pow62((a.len() - 1) as nat);
    lemma_pow62_pos((a.len() - 1) as nat);
    assert(all_base62(a.skip(1)));
    assert(all_base62(b.skip(1)));
    lemma_value_bounds(a.skip(1));
    lemma_value_bounds(b.skip(1));
    let ta = ksuid_value(a.skip(1));
    let tb = ksuid_value(b.skip(1));
    if da == db {
        lemma_digit_injective(a[0], b[0]);
        assert(ta < tb);
        lemma_value_order(a.skip(1), b.skip(1));
    } else if da < db {
        lemma_digit_order(a[0], b[0]);
    } else {
        assert(da * p >= db * p + p) by (nonlinear_arith)
            requires
                da >= db + 1,
                p >= 1,
        ;
        assert(false);
    }
}

/// Law: of two well-formed identifiers, one embedding an earlier second
/// sorts lexicographically before one embedding a later second.
pub proof fn lemma_id_sortable(a: Seq<char>, b: Seq<char>)
    requires
        valid_ksuid(a),
        valid_ksuid(b),
        decoded_seconds(a) < decoded_seconds(b),
    ensures
        lex_lt(a, b),
{
    lemma_pow2_pos(128);
    if ksuid_value(a) >= ksuid_value(b) {
        lemma_div_is_ordered(ksuid_value(b), ksuid_value(a), ts_modulus());
        assert(false);
    }
    lemma_value_order(a, b);
}

/// Mint one message identifier from the wall clock: the identifier string
/// and the Unix second embedded in it. The second component always equals
/// the second that decodes back out of the first.
pub fn mint_message_id() -> (r: (String, i64))
    ensures
        valid_ksuid(r.0@),
        r.1 as int == decoded_seconds(r.0@),
        r.1 >= id_epoch_seconds(),
{
    let r = mint_raw();
    proof {
        lemma_pow2_pos(128);
        lemma_value_bounds(r.0@);
        lemma_div_is_ordered(0, ksuid_value(r.0@), ts_modulus());
    }
    r
}

} // verus!
