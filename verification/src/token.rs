//! Tokens: 128-bit identifiers with a canonical textual form of exactly
//! 32 lowercase hexadecimal characters. Tokens are the universal primary
//! and foreign key type for every table record.

use vstd::prelude::*;

verus! {

/// A record's primary key; every cross-table reference is a token value.
pub type Token = u128;

/// Decoding a token's textual form can fail only one way: the text does
/// not have the canonical shape.
#[derive(Clone, Copy, Debug, PartialEq, Eq, Structural)]
pub enum TokenError {
    Malformed,
}

/// Value of one hexadecimal digit byte; `None` when the byte is no hex digit.
pub open spec fn nibble_val(b: u8) -> Option<u8> {
    if 0x30 <= b && b <= 0x39 {
        Some((b - 0x30) as u8)
    } else if 0x61 <= b && b <= 0x66 {
        Some((b - 0x61 + 10) as u8)
    } else if 0x41 <= b && b <= 0x46 {
        Some((b - 0x41 + 10) as u8)
    } else {
        None
    }
}

pub open spec fn is_hex_digit(b: u8) -> bool {
    nibble_val(b) is Some
}

pub open spec fn all_hex_digits(s: Seq<u8>) -> bool {
    forall|i: int| 0 <= i < s.len() ==> is_hex_digit(#[trigger] s[i])
}

/// The digit's value, counting a non-digit as zero so the function is total.
pub open spec fn nibble_of(b: u8) -> nat {
    match nibble_val(b) {
        Some(v) => v as nat,
        None => 0,
    }
}

/// Numeric value of a big-endian string of hex digits.
pub open spec fn hex_val(s: Seq<u8>) -> nat
    decreases s.len(),
{
    if s.len() == 0 {
        0
    } else {
        hex_val(s.drop_last()) * 16 + nibble_of(s.last())
    }
}

pub open spec fn pow16(n: nat) -> nat
    decreases n,
{
    if n == 0 {
        1
    } else {
        16 * pow16((n - 1) as nat)
    }
}

/// The lowercase hex digit byte for a value below sixteen.
pub open spec fn hex_digit_of(v: u8) -> u8 {
    if v < 10 {
        (0x30 + v) as u8
    } else {
        (0x61 + (v - 10)) as u8
    }
}

/// The `n`-character lowercase big-endian hex form of `t`'s low `n` nibbles.
pub open spec fn hex_str_of(t: nat, n: nat) -> Seq<u8>
    decreases n,
{
    if n == 0 {
        Seq::empty()
    } else {
        hex_str_of(t / 16, (n - 1) as nat).push(hex_digit_of((t % 16) as u8))
    }
}

/// The canonical 32-character lowercase hex form of a token.
pub open spec fn canonical_hex(t: Token) -> Seq<u8> {
    hex_str_of(t as nat, 32)
}

pub fn decode_hex_nibble(b: u8) -> (r: Option<u8>)
    ensures
        r == nibble_val(b),
{
    if 0x30 <= b && b <= 0x39 {
        Some(b - 0x30)
    } else if 0x61 <= b && b <= 0x66 {
        Some(b - 0x61 + 10)
    } else if 0x41 <= b && b <= 0x46 {
        Some(b - 0x41 + 10)
    } else {
        None
    }
}

proof fn lemma_hex_val_push(s: Seq<u8>, b: u8)
    ensures
        hex_val(s.push(b)) == hex_val(s) * 16 + nibble_of(b),
{
    assert(s.push(b).drop_last() =~= s);
    assert(s.push(b).last() == b);
}

/// The whole textual form of a token fits a `u128` exactly: 32 hex
/// characters carry 128 bits.
pub proof fn lemma_pow16_32()
    ensures
        pow16(32) == 0x1_0000_0000_0000_0000_0000_0000_0000_0000,
{
    reveal_with_fuel(pow16, 33);
}

/// The canonical textual shape of a token: exactly 32 hex characters.
pub open spec fn token_text_valid(s: Seq<u8>) -> bool {
    s.len() == 32 && all_hex_digits(s)
}

/// Parses exactly 32 hex characters into a token. Any other length, or a
/// non-hex character, yields `None`.
pub fn parse_hex(s: &[u8]) -> (r: Option<Token>)
    ensures
        (s@.len() == 32 && all_hex_digits(s@)) ==> r == Some(hex_val(s@) as Token),
        !(s@.len() == 32 && all_hex_digits(s@)) ==> r is None,
        r matches Some(t) ==> t == hex_val(s@),
{
    proof {
        lemma_pow16_32();
    }
    if s.len() != 32 {
        return None;
    }
    let mut acc: u128 = 0;
    let mut i: usize = 0;
    while i < 32
        invariant
            i <= 32,
            s@.len() == 32,
            acc == hex_val(s@.take(i as int)),
            acc < pow16(i as nat),
            pow16(32) == 0x1_0000_0000_0000_0000_0000_0000_0000_0000,
            all_hex_digits(s@.take(i as int)),
        decreases 32 - i,
    {
        let b = s[i];
        match decode_hex_nibble(b) {
            None => {
                assert(!is_hex_digit(s@[i as int]));
                return None;
            },
            Some(v) => {
                proof {
                    assert(pow16((i + 1) as nat) == 16 * pow16(i as nat));
                    lemma_pow16_le(i as nat, 31);
                    assert(s@.take(i + 1).drop_last() =~= s@.take(i as int));
                    assert(s@.take(i + 1).last() == s@[i as int]);
                }
                acc = acc * 16 + (v as u128);
                i = i + 1;
            },
        }
    }
    assert(s@.take(32) =~= s@);
    Some(acc)
}

proof fn lemma_pow16_le(m: nat, n: nat)
    requires
        m <= n,
    ensures
        pow16(m) <= pow16(n),
    decreases n,
{
    if m < n {
        lemma_pow16_le(m, (n - 1) as nat);
        assert(pow16(n) == 16 * pow16((n - 1) as nat));
    }
}

fn hex_digit(v: u8) -> (r: u8)
    requires
        v < 16,
    ensures
        r == hex_digit_of(v),
{
    if v < 10 {
        0x30 + v
    } else {
        0x61 + (v - 10)
    }
}

fn hex_digits(t: u128, n: usize) -> (r: Vec<u8>)
    ensures
        r@ == hex_str_of(t as nat, n as nat),
    decreases n,
{
    if n == 0 {
        let r = Vec::new();
        assert(r@ =~= hex_str_of(t as nat, 0));
        r
    } else {
        let mut r = hex_digits(t / 16, n - 1);
        let d = (t % 16) as u8;
        r.push(hex_digit(d));
        r
    }
}

/// Encodes a token into its canonical 32-character lowercase hex form.
pub fn encode_hex(t: Token) -> (r: Vec<u8>)
    ensures
        r@ == canonical_hex(t),
        r@.len() == 32,
{
    proof {
        lemma_hex_str_shape(t as nat, 32);
    }
    hex_digits(t, 32)
}

proof fn lemma_hex_str_shape(t: nat, n: nat)
    ensures
        hex_str_of(t, n).len() == n,
        all_hex_digits(hex_str_of(t, n)),
    decreases n,
{
    if n > 0 {
        lemma_hex_str_shape(t / 16, (n - 1) as nat);
        let s = hex_str_of(t / 16, (n - 1) as nat);
        let b = hex_digit_of((t % 16) as u8);
        assert(is_hex_digit(b));
        assert(forall|i: int|
            0 <= i < s.push(b).len() ==> is_hex_digit(#[trigger] s.push(b)[i]));
    }
}

proof fn lemma_hex_val_of_hex_str(t: nat, n: nat)
    ensures
        hex_val(hex_str_of(t, n)) == t % pow16(n),
    decreases n,
{
    if n == 0 {
        assert(pow16(0) == 1);
        assert(t % 1 == 0) by (nonlinear_arith);
    } else {
        let q = t / 16;
        let r0 = t % 16;
        let p = pow16((n - 1) as nat);
        lemma_hex_val_of_hex_str(q, (n - 1) as nat);
        lemma_hex_val_push(hex_str_of(q, (n - 1) as nat), hex_digit_of(r0 as u8));
        assert(r0 < 16) by (nonlinear_arith)
            requires
                r0 == t % 16,
        ;
        assert(nibble_of(hex_digit_of(r0 as u8)) == r0);
        assert(hex_val(hex_str_of(t, n)) == (q % p) * 16 + r0);
        assert(p > 0) by {
            lemma_pow16_pos((n - 1) as nat);
        }
        assert((q % p) * 16 + r0 == t % (16 * p)) by (nonlinear_arith)
            requires
                p > 0,
                q == t / 16,
                r0 == t % 16,
        ;
    }
}

proof fn lemma_pow16_pos(n: nat)
    ensures
        pow16(n) >= 1,
    decreases n,
{
    if n > 0 {
        lemma_pow16_pos((n - 1) as nat);
    }
}

/// Round trip: the canonical hex form of any token has exactly 32 lowercase
/// hex characters, and decoding it yields the token back.
pub proof fn lemma_token_round_trip(t: Token)
    ensures
        canonical_hex(t).len() == 32,
        all_hex_digits(canonical_hex(t)),
        hex_val(canonical_hex(t)) == t as nat,
{
    lemma_hex_str_shape(t as nat, 32);
    lemma_hex_val_of_hex_str(t as nat, 32);
    lemma_pow16_32();
    assert((t as nat) % pow16(32) == t as nat) by (nonlinear_arith)
        requires
            (t as nat) < pow16(32),
            pow16(32) > 0,
    ;
}

/// Decodes an optional-reference field: an empty string means "no
/// reference"; anything else must be the canonical 32-hex-character form,
/// and any other length or a non-hex character is malformed.
pub fn decode_token(s: &[u8]) -> (r: Result<Option<Token>, TokenError>)
    ensures
        s@.len() == 0 ==> r == Ok::<Option<Token>, TokenError>(None),
        s@.len() != 0 && !token_text_valid(s@) ==> r == Err::<Option<Token>, TokenError>(
            TokenError::Malformed,
        ),
        token_text_valid(s@) ==> r == Ok::<Option<Token>, TokenError>(
            Some(hex_val(s@) as Token),
        ),
{
    if s.len() == 0 {
        Ok(None)
    } else {
        match parse_hex(s) {
            Some(t) => Ok(Some(t)),
            None => Err(TokenError::Malformed),
        }
    }
}

/// Decodes a required-reference field: exactly 32 hex characters, anything
/// else is malformed.
pub fn decode_required_token(s: &[u8]) -> (r: Result<Token, TokenError>)
    ensures
        s@.len() == 32 && all_hex_digits(s@) ==> r == Ok::<Token, TokenError>(
            hex_val(s@) as Token,
        ),
        !(s@.len() == 32 && all_hex_digits(s@)) ==> r == Err::<Token, TokenError>(
            TokenError::Malformed,
        ),
{
    match parse_hex(s) {
        Some(t) => Ok(t),
        None => Err(TokenError::Malformed),
    }
}

} // verus!
