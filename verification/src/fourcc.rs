//! FourCC-style property keys: packing a four-character token into one
//! 32-bit word, first character in the most significant byte.

use vstd::prelude::*;
use vstd::string::StrSliceExecFns;

verus! {

/// A well-formed token: exactly four characters, each code point
/// fitting one byte.
pub open spec fn token_wf(s: Seq<char>) -> bool {
    s.len() == 4 && 0 <= (s[0] as int) < 256 && 0 <= (s[1] as int) < 256 && 0 <= (
    s[2] as int) < 256 && 0 <= (s[3] as int) < 256
}

/// The 32-bit key packed from a four-character token, big-endian:
/// the first character occupies the most significant byte.
pub open spec fn fourcc_spec(s: Seq<char>) -> int
    recommends
        token_wf(s),
{
    (s[0] as int) * 0x100_0000 + (s[1] as int) * 0x1_0000 + (s[2] as int) * 0x100 + (s[3] as int)
}

/// The four-character token whose packed key is `v`.
pub open spec fn token_of_key(v: int) -> Seq<char> {
    seq![
        (((v / 0x100_0000) % 0x100) as u8) as char,
        (((v / 0x1_0000) % 0x100) as u8) as char,
        (((v / 0x100) % 0x100) as u8) as char,
        ((v % 0x100) as u8) as char,
    ]
}

/// Packs a four-character token into its 32-bit property key.
#[allow(non_snake_case)]
pub fn idFromCharsLikeAppleDoes(chars: &str) -> (id: u32)
    requires
        token_wf(chars@),
    ensures
        id == fourcc_spec(chars@),
{
    let c0: u32 = chars.get_char(0) as u32;
    let c1: u32 = chars.get_char(1) as u32;
    let c2: u32 = chars.get_char(2) as u32;
    let c3: u32 = chars.get_char(3) as u32;
    c0 * 0x100_0000 + c1 * 0x1_0000 + c2 * 0x100 + c3
}

/// Unpacks a 32-bit key into the unique well-formed token it encodes.
pub fn token_from_id(id: u32) -> (r: Vec<char>)
    ensures
        token_wf(r@),
        r@ == token_of_key(id as int),
        fourcc_spec(r@) == id,
{
    let b0: u32 = id >> 24;
    let b1: u32 = (id >> 16) & 0xFF;
    let b2: u32 = (id >> 8) & 0xFF;
    let b3: u32 = id & 0xFF;
    assert(b0 < 256 && b1 < 256 && b2 < 256 && b3 < 256 && b0 == (id / 0x100_0000) % 0x100
        && b1 == (id / 0x1_0000) % 0x100 && b2 == (id / 0x100) % 0x100 && b3 == id
        % 0x100) by (bit_vector)
        requires
            b0 == id >> 24 && b1 == (id >> 16) & 0xFF && b2 == (id >> 8) & 0xFF && b3 == id
                & 0xFF,
    ;
    let mut r: Vec<char> = Vec::new();
    r.push((b0 as u8) as char);
    r.push((b1 as u8) as char);
    r.push((b2 as u8) as char);
    r.push((b3 as u8) as char);
    proof {
        assert(r@ =~= token_of_key(id as int));
        lemma_key_of_token_of_key(id as int);
    }
    r
}

/// Law: unpacking any 32-bit value yields a well-formed token that
/// packs back to the same value (`encode(decode(v)) == v`).
pub proof fn lemma_key_of_token_of_key(v: int)
    requires
        0 <= v < 0x1_0000_0000,
    ensures
        token_wf(token_of_key(v)),
        fourcc_spec(token_of_key(v)) == v,
{
    let s = token_of_key(v);
    assert(s[0] as int == (v / 0x100_0000) % 0x100);
    assert(s[1] as int == (v / 0x1_0000) % 0x100);
    assert(s[2] as int == (v / 0x100) % 0x100);
    assert(s[3] as int == v % 0x100);
}

/// Law: packing a well-formed token and unpacking the key gives the
/// token back (`decode(encode(s)) == s`), so the encoding is a
/// bijection between well-formed tokens and 32-bit values.
pub proof fn lemma_token_of_key_of_token(s: Seq<char>)
    requires
        token_wf(s),
    ensures
        0 <= fourcc_spec(s) < 0x1_0000_0000,
        token_of_key(fourcc_spec(s)) =~= s,
{
    let v = fourcc_spec(s);
    let a0 = s[0] as int;
    let a1 = s[1] as int;
    let a2 = s[2] as int;
    let a3 = s[3] as int;
    assert(v == a0 * 0x100_0000 + (a1 * 0x1_0000 + a2 * 0x100 + a3));
    vstd::arithmetic::div_mod::lemma_fundamental_div_mod_converse(
        v,
        0x100_0000,
        a0,
        a1 * 0x1_0000 + a2 * 0x100 + a3,
    );
    assert((a0 * 0x100 + a1) * 0x1_0000 == a0 * 0x100_0000 + a1 * 0x1_0000) by (nonlinear_arith);
    vstd::arithmetic::div_mod::lemma_fundamental_div_mod_converse(
        v,
        0x1_0000,
        a0 * 0x100 + a1,
        a2 * 0x100 + a3,
    );
    assert((a0 * 0x1_0000 + a1 * 0x100 + a2) * 0x100 == a0 * 0x100_0000 + a1 * 0x1_0000 + a2
        * 0x100) by (nonlinear_arith);
    vstd::arithmetic::div_mod::lemma_fundamental_div_mod_converse(
        v,
        0x100,
        a0 * 0x1_0000 + a1 * 0x100 + a2,
        a3,
    );
    assert(v / 0x100_0000 % 0x100 == a0);
    assert((a0 * 0x100 + a1) % 0x100 == a1) by {
        vstd::arithmetic::div_mod::lemma_mod_multiples_vanish(a0, a1, 0x100);
        vstd::arithmetic::div_mod::lemma_small_mod(a1 as nat, 0x100);
    }
    assert((a0 * 0x1_0000 + a1 * 0x100 + a2) % 0x100 == a2) by {
        vstd::arithmetic::div_mod::lemma_mod_multiples_vanish(
            a0 * 0x100 + a1,
            a2,
            0x100,
        );
        vstd::arithmetic::div_mod::lemma_small_mod(a2 as nat, 0x100);
    }
    assert(v % 0x100 == a3);
}

/// Law: the packed key determines the token: well-formed tokens with
/// equal keys are equal.
pub proof fn lemma_fourcc_injective(s: Seq<char>, t: Seq<char>)
    requires
        token_wf(s),
        token_wf(t),
        fourcc_spec(s) == fourcc_spec(t),
    ensures
        s =~= t,
{
    lemma_token_of_key_of_token(s);
    lemma_token_of_key_of_token(t);
}

} // verus!
