//! Random session tokens.

use vstd::prelude::*;

use crate::fields::{AuthToken, Timestamp};
use crate::model::{default_expiration, now, spec_default_expiration};

verus! {

#[verifier::external_type_specification]
#[verifier::external_body]
pub struct ExThreadRng(rand::rngs::ThreadRng);

/// Whether a character is a hexadecimal digit, either case.
pub open spec fn is_hex_digit(c: char) -> bool {
    ('0' <= c <= '9') || ('a' <= c <= 'f') || ('A' <= c <= 'F')
}

/// The lower-case hexadecimal digit of a value below 16.
pub open spec fn hex_char(v: u8) -> char {
    if v < 10 {
        (48 + v) as char
    } else {
        (87 + v) as char
    }
}

/// The hexadecimal digits of a sequence of values below 16.
pub open spec fn spec_hex_string(draws: Seq<u8>) -> Seq<char> {
    draws.map_values(|v: u8| hex_char(v))
}

/// Whether every value is below 16.
pub open spec fn all_nibbles(draws: Seq<u8>) -> bool {
    forall|i: int| 0 <= i < draws.len() ==> #[trigger] draws[i] < 16
}

/// The thread-local random generator. Trusted: it calls `rand::thread_rng`.
#[verifier::external_body]
fn thread_rng() -> rand::rngs::ThreadRng {
    rand::thread_rng()
}

/// Draws a value in `0..16` with `Rng::gen_range`. Trusted: rand documents the
/// value as lying in the range (it panics only on an empty range); which value
/// is random.
#[verifier::external_body]
fn sample_nibble(rng: &mut rand::rngs::ThreadRng) -> (b: u8)
    ensures
        b < 16,
{
    rand::Rng::gen_range(rng, 0..16u8)
}

/// Appends a character with `String::push`. Trusted: the string grows by that
/// character, as std documents.
#[verifier::external_body]
fn push_char(s: &mut String, c: char)
    ensures
        final(s)@ == old(s)@.push(c),
{
    s.push(c)
}

/// Number of hexadecimal digits in a token.
pub const TOKEN_DRAWS: usize = 40;

/// The lower-case hexadecimal digit of a value below 16.
pub fn hex_digit(v: u8) -> (c: char)
    requires
        v < 16,
    ensures
        c == hex_char(v),
        is_hex_digit(c),
{
    if v < 10 {
        let c = (48 + v) as char;
        assert(c == hex_char(v));
        assert(is_hex_digit(c));
        c
    } else {
        let c = (87 + v) as char;
        assert(c == hex_char(v));
        assert(is_hex_digit(c));
        c
    }
}

/// The token spelled by a sequence of random values below 16, one
/// hexadecimal digit each.
pub fn token_from_draws(draws: &Vec<u8>) -> (t: AuthToken)
    requires
        all_nibbles(draws@),
    ensures
        t@ == spec_hex_string(draws@),
{
    let mut s = String::new();
    let mut i: usize = 0;
    while i < draws.len()
        invariant
            i <= draws@.len(),
            all_nibbles(draws@),
            s@ == spec_hex_string(draws@.take(i as int)),
        decreases draws@.len() - i,
    {
        let c = hex_digit(draws[i]);
        push_char(&mut s, c);
        assert(draws@.take(i + 1) =~= draws@.take(i as int).push(draws@[i as int]));
        assert(spec_hex_string(draws@.take(i + 1)) =~= spec_hex_string(draws@.take(i as int)).push(
            c,
        ));
        i = i + 1;
    }
    assert(draws@.take(draws@.len() as int) =~= draws@);
    AuthToken(s)
}

/// Every digit of a hexadecimal string is a hexadecimal digit.
proof fn lemma_hex_string_digits(draws: Seq<u8>)
    requires
        all_nibbles(draws),
    ensures
        forall|i: int|
            0 <= i < spec_hex_string(draws).len() ==> is_hex_digit(
                #[trigger] spec_hex_string(draws)[i],
            ),
{
    assert forall|i: int| 0 <= i < spec_hex_string(draws).len() implies is_hex_digit(
        #[trigger] spec_hex_string(draws)[i],
    ) by {
        let v = draws[i];
        assert(v < 16);
        let c = hex_char(v);
        if v < 10 {
            assert(is_hex_digit(c));
        } else {
            assert(is_hex_digit(c));
        }
    }
}

/// A new session token and its expiration: 40 random hexadecimal digits,
/// expiring the default lifetime after the current time.
pub fn generate_user_token() -> (r: (AuthToken, Timestamp))
    ensures
        r.0@.len() == TOKEN_DRAWS,
        forall|i: int| 0 <= i < r.0@.len() ==> is_hex_digit(#[trigger] r.0@[i]),
        exists|d: Seq<u8>|
            d.len() == TOKEN_DRAWS && all_nibbles(d) && r.0@ == #[trigger] spec_hex_string(d),
        exists|t: Timestamp| r.1 == #[trigger] spec_default_expiration(t),
{
    let mut rng = thread_rng();
    let mut draws: Vec<u8> = Vec::new();
    let mut i: usize = 0;
    while i < TOKEN_DRAWS
        invariant
            i <= TOKEN_DRAWS,
            draws@.len() == i,
            all_nibbles(draws@),
        decreases TOKEN_DRAWS - i,
    {
        let b = sample_nibble(&mut rng);
        draws.push(b);
        i = i + 1;
    }
    let token = token_from_draws(&draws);
    proof {
        lemma_hex_string_digits(draws@);
    }
    let t = now();
    let expiration = default_expiration(t);
    assert(expiration == spec_default_expiration(t));
    (token, expiration)
}

} // verus!
