//! Task identifiers: their canonical text form and the parsing of text into them.
//!
//! A UUID is held as the 128-bit integer whose big-endian bytes are the UUID's bytes.
use vstd::prelude::*;
use crate::error::Error;

verus! {

/// The lower-case hexadecimal digit for `n`, which lies in `0..16`.
pub open spec fn hex_digit(n: int) -> char {
    if n < 10 {
        (48 + n) as char
    } else {
        (87 + n) as char
    }
}

/// The `k`-th hexadecimal digit of `v`, counted from the most significant one (`k` in `0..32`).
pub open spec fn nibble(v: u128, k: int) -> int {
    (v as int / vstd::arithmetic::power::pow(16, (31 - k) as nat)) % 16
}

/// How many hyphens stand before position `p` of the hyphenated form.
pub open spec fn hyphens_before(p: int) -> int {
    if p > 23 {
        4
    } else if p > 18 {
        3
    } else if p > 13 {
        2
    } else if p > 8 {
        1
    } else {
        0
    }
}

/// Whether position `p` of the hyphenated form holds a hyphen.
pub open spec fn is_hyphen_position(p: int) -> bool {
    p == 8 || p == 13 || p == 18 || p == 23
}

/// The canonical text of a UUID: 32 lower-case hexadecimal digits in groups of
/// 8, 4, 4, 4 and 12, separated by hyphens (36 characters).
pub open spec fn hyphenated(v: u128) -> Seq<char> {
    Seq::new(
        36,
        |p: int|
            if is_hyphen_position(p) {
                '-'
            } else {
                hex_digit(nibble(v, p - hyphens_before(p)))
            },
    )
}

/// What `uuid::Uuid::parse_str` makes of a text: the UUID, or `None` where the text is
/// not one of the UUID formats that it accepts.
pub uninterp spec fn parsed_uuid(s: Seq<char>) -> Option<u128>;

/// Parses a UUID with `uuid::Uuid::parse_str` (re-exported by taskchampion).
/// Trusted: the result is the value that `parsed_uuid` names for the text.
#[verifier::external_body]
fn parse_uuid_text(s: &str) -> (r: Option<u128>)
    ensures
        r == parsed_uuid(s@),
{
    match taskchampion::Uuid::parse_str(s) {
        Ok(u) => Some(u.as_u128()),
        Err(_) => None,
    }
}

/// Formats a UUID with `Display` of `uuid::Uuid` (built by `Uuid::from_u128`).
/// Trusted: `Display` writes the lower-case hyphenated form (the crate's `LowerHex`), and
/// `parse_str` reads that form back to the same value.
#[verifier::external_body]
pub fn uuid_to_string(v: u128) -> (r: String)
    ensures
        r@ == hyphenated(v),
        parsed_uuid(r@) == Some(v),
{
    taskchampion::Uuid::from_u128(v).to_string()
}

/// Converts text into a UUID, refusing text that is not a UUID with `Error::InvalidUuid`.
pub fn uuid2tc(s: &str) -> (r: Result<u128, Error>)
    ensures
        match parsed_uuid(s@) {
            Some(v) => r == Ok::<u128, Error>(v),
            None => r == Err::<u128, Error>(Error::InvalidUuid),
        },
{
    match parse_uuid_text(s) {
        Some(v) => Ok(v),
        None => Err(Error::InvalidUuid),
    }
}

/// Formats a list of UUIDs, keeping their order.
pub fn uuids_to_strings(v: &Vec<u128>) -> (r: Vec<String>)
    ensures
        r@.len() == v@.len(),
        forall|i: int| 0 <= i < v@.len() ==> #[trigger] r@[i]@ == hyphenated(v@[i]),
{
    let mut r: Vec<String> = Vec::new();
    let mut i: usize = 0;
    while i < v.len()
        invariant
            i <= v@.len(),
            r@.len() == i,
            forall|j: int| 0 <= j < i ==> #[trigger] r@[j]@ == hyphenated(v@[j]),
        decreases v@.len() - i,
    {
        r.push(uuid_to_string(v[i]));
        i = i + 1;
    }
    r
}

} // verus!

verus! {

/// The position in the hyphenated form of the `k`-th hexadecimal digit (`k` in `0..32`).
pub open spec fn digit_position(k: int) -> int {
    if k >= 20 {
        k + 4
    } else if k >= 16 {
        k + 3
    } else if k >= 12 {
        k + 2
    } else if k >= 8 {
        k + 1
    } else {
        k
    }
}

/// The value of the first `j` hexadecimal digits of `v` (`j` in `0..=32`).
pub open spec fn leading_digits(v: u128, j: int) -> int {
    v as int / vstd::arithmetic::power::pow(16, (32 - j) as nat)
}

proof fn lemma_pow16_positive(e: nat)
    ensures
        vstd::arithmetic::power::pow(16, e) > 0,
{
    vstd::arithmetic::power::lemma_pow_positive(16, e);
}

proof fn lemma_nibble_range(v: u128, k: int)
    ensures
        0 <= nibble(v, k) < 16,
{
    lemma_pow16_positive((31 - k) as nat);
    vstd::arithmetic::div_mod::lemma_div_pos_is_pos(v as int, vstd::arithmetic::power::pow(16, (31 - k) as nat));
    vstd::arithmetic::div_mod::lemma_mod_bound(
        v as int / vstd::arithmetic::power::pow(16, (31 - k) as nat),
        16,
    );
}

proof fn lemma_leading_digits_step(v: u128, j: int)
    requires
        0 <= j < 32,
    ensures
        leading_digits(v, j + 1) == leading_digits(v, j) * 16 + nibble(v, j),
{
    let p = vstd::arithmetic::power::pow(16, (31 - j) as nat);
    lemma_pow16_positive((31 - j) as nat);
    assert(vstd::arithmetic::power::pow(16, (32 - j) as nat) == 16 * p) by {
        reveal(vstd::arithmetic::power::pow);
    }
    let q = v as int / p;
    vstd::arithmetic::div_mod::lemma_div_denominator(v as int, p, 16);
    assert(p * 16 == 16 * p) by (nonlinear_arith);
    vstd::arithmetic::div_mod::lemma_fundamental_div_mod(q, 16);
    assert(leading_digits(v, j + 1) == q);
    assert(leading_digits(v, j) == q / 16);
}

proof fn lemma_leading_digits_bounds(v: u128)
    ensures
        leading_digits(v, 0) == 0,
        leading_digits(v, 32) == v,
{
    vstd::arithmetic::power::lemma_pow1(16);
    vstd::arithmetic::power::lemma_pow_adds(16, 1, 1);
    assert(vstd::arithmetic::power::pow(16, 2) == 0x100int);
    vstd::arithmetic::power::lemma_pow_adds(16, 2, 2);
    assert(vstd::arithmetic::power::pow(16, 4) == 0x1_0000int);
    vstd::arithmetic::power::lemma_pow_adds(16, 4, 4);
    assert(vstd::arithmetic::power::pow(16, 8) == 0x1_0000_0000int);
    vstd::arithmetic::power::lemma_pow_adds(16, 8, 8);
    assert(vstd::arithmetic::power::pow(16, 16) == 0x1_0000_0000_0000_0000int);
    vstd::arithmetic::power::lemma_pow_adds(16, 16, 16);
    assert(vstd::arithmetic::power::pow(16, 32) == 0x1_0000_0000_0000_0000_0000_0000_0000_0000int);
    vstd::arithmetic::div_mod::lemma_basic_div(
        v as int,
        0x1_0000_0000_0000_0000_0000_0000_0000_0000int,
    );
    vstd::arithmetic::power::lemma_pow0(16);
}

proof fn lemma_equal_digits_prefix(a: u128, b: u128, j: int)
    requires
        0 <= j <= 32,
        forall|k: int| 0 <= k < 32 ==> #[trigger] nibble(a, k) == nibble(b, k),
    ensures
        leading_digits(a, j) == leading_digits(b, j),
    decreases j,
{
    if j == 0 {
        lemma_leading_digits_bounds(a);
        lemma_leading_digits_bounds(b);
    } else {
        lemma_equal_digits_prefix(a, b, j - 1);
        lemma_leading_digits_step(a, j - 1);
        lemma_leading_digits_step(b, j - 1);
        assert(nibble(a, j - 1) == nibble(b, j - 1));
    }
}

/// Different UUIDs have different hyphenated texts: the text determines the UUID.
pub proof fn lemma_hyphenated_injective(a: u128, b: u128)
    requires
        hyphenated(a) == hyphenated(b),
    ensures
        a == b,
{
    assert forall|k: int| 0 <= k < 32 implies #[trigger] nibble(a, k) == nibble(b, k) by {
        let p = digit_position(k);
        assert(!is_hyphen_position(p) && p - hyphens_before(p) == k && 0 <= p < 36);
        assert(hyphenated(a)[p] == hex_digit(nibble(a, p - hyphens_before(p))));
        assert(hyphenated(b)[p] == hex_digit(nibble(b, p - hyphens_before(p))));
        lemma_nibble_range(a, k);
        lemma_nibble_range(b, k);
        let x = nibble(a, k);
        let y = nibble(b, k);
        assert(hex_digit(x) == hex_digit(y));
        assert(hex_digit(x) as int == if x < 10 { 48 + x } else { 87 + x });
        assert(hex_digit(y) as int == if y < 10 { 48 + y } else { 87 + y });
    }
    lemma_equal_digits_prefix(a, b, 32);
    lemma_leading_digits_bounds(a);
    lemma_leading_digits_bounds(b);
}

} // verus!
