//! The file-system-safe token that names a 64-bit hash.

use crate::text::to_chars;
use crate::text::push_char;
use vstd::prelude::*;

verus! {

/// The code of the character that stands for a six-bit value in the
/// standard base64 alphabet: the upper-case letters, the lower-case letters,
/// the digits, then `+` and `/`.
pub open spec fn base64_code(value: int) -> int {
    if value < 26 {
        65 + value
    } else if value < 52 {
        97 + (value - 26)
    } else if value < 62 {
        48 + (value - 52)
    } else if value == 62 {
        43
    } else {
        47
    }
}

/// The character that stands for a six-bit value in the standard base64 alphabet.
pub open spec fn base64_digit(value: int) -> char {
    base64_code(value) as u8 as char
}

/// The standard base64 text of `bytes`, padded with `=` to a multiple of four
/// characters.
pub open spec fn base64_text(bytes: Seq<u8>) -> Seq<char>
    decreases bytes.len(),
{
    if bytes.len() == 0 {
        Seq::empty()
    } else if bytes.len() == 1 {
        seq![base64_digit(bytes[0] as int / 4), base64_digit((bytes[0] as int % 4) * 16), '=', '=']
    } else if bytes.len() == 2 {
        seq![
            base64_digit(bytes[0] as int / 4),
            base64_digit((bytes[0] as int % 4) * 16 + bytes[1] as int / 16),
            base64_digit((bytes[1] as int % 16) * 4),
            '=',
        ]
    } else {
        seq![
            base64_digit(bytes[0] as int / 4),
            base64_digit((bytes[0] as int % 4) * 16 + bytes[1] as int / 16),
            base64_digit((bytes[1] as int % 16) * 4 + bytes[2] as int / 64),
            base64_digit(bytes[2] as int % 64),
        ] + base64_text(bytes.skip(3))
    }
}

/// Encodes bytes by calling `base64::encode`. Trusted: the result is the
/// standard base64 text of the bytes, with padding. The encoder fails only
/// where the length of its output overflows, which the bound on the input
/// rules out.
#[verifier::external_body]
pub(crate) fn base64_encode(bytes: &Vec<u8>) -> (text: String)
    requires
        bytes@.len() <= 0x1000_0000,
    ensures
        text@ == base64_text(bytes@),
{
    base64::encode(bytes)
}

/// The eight bytes of `value`, most significant first.
pub open spec fn be_bytes(value: u64) -> Seq<u8> {
    let v = value as int;
    seq![
        (v / 256 / 256 / 256 / 256 / 256 / 256 / 256 % 256) as u8,
        (v / 256 / 256 / 256 / 256 / 256 / 256 % 256) as u8,
        (v / 256 / 256 / 256 / 256 / 256 % 256) as u8,
        (v / 256 / 256 / 256 / 256 % 256) as u8,
        (v / 256 / 256 / 256 % 256) as u8,
        (v / 256 / 256 % 256) as u8,
        (v / 256 % 256) as u8,
        (v % 256) as u8,
    ]
}

/// The eight bytes of `value`, most significant first.
pub fn to_be_bytes(value: u64) -> (bytes: Vec<u8>)
    ensures
        bytes@ == be_bytes(value),
{
    let n1 = value / 256;
    let n2 = n1 / 256;
    let n3 = n2 / 256;
    let n4 = n3 / 256;
    let n5 = n4 / 256;
    let n6 = n5 / 256;
    let n7 = n6 / 256;
    let mut bytes: Vec<u8> = Vec::new();
    bytes.push((n7 % 256) as u8);
    bytes.push((n6 % 256) as u8);
    bytes.push((n5 % 256) as u8);
    bytes.push((n4 % 256) as u8);
    bytes.push((n3 % 256) as u8);
    bytes.push((n2 % 256) as u8);
    bytes.push((n1 % 256) as u8);
    bytes.push((value % 256) as u8);
    assert(bytes@ =~= be_bytes(value));
    bytes
}

/// Different values have different bytes.
pub proof fn lemma_be_bytes_injective(a: u64, b: u64)
    requires
        be_bytes(a) == be_bytes(b),
    ensures
        a == b,
{
    let x = be_bytes(a);
    let y = be_bytes(b);
    assert(x[0] == y[0] && x[1] == y[1] && x[2] == y[2] && x[3] == y[3] && x[4] == y[4] && x[5]
        == y[5] && x[6] == y[6] && x[7] == y[7]);
    let a1 = a as int / 256;
    let a2 = a1 / 256;
    let a3 = a2 / 256;
    let a4 = a3 / 256;
    let a5 = a4 / 256;
    let a6 = a5 / 256;
    let a7 = a6 / 256;
    let b1 = b as int / 256;
    let b2 = b1 / 256;
    let b3 = b2 / 256;
    let b4 = b3 / 256;
    let b5 = b4 / 256;
    let b6 = b5 / 256;
    let b7 = b6 / 256;
    assert(a7 < 256 && b7 < 256);
    assert(a7 % 256 == b7 % 256);
    assert(a7 == b7);
    assert(a6 % 256 == b6 % 256);
    assert(a6 == b6);
    assert(a5 % 256 == b5 % 256);
    assert(a5 == b5);
    assert(a4 % 256 == b4 % 256);
    assert(a4 == b4);
    assert(a3 % 256 == b3 % 256);
    assert(a3 == b3);
    assert(a2 % 256 == b2 % 256);
    assert(a2 == b2);
    assert(a1 % 256 == b1 % 256);
    assert(a1 == b1);
    assert(a as int % 256 == b as int % 256);
}

/// `text` with each path separator replaced by an underscore.
pub open spec fn without_separator(text: Seq<char>) -> Seq<char> {
    Seq::new(text.len(), |i: int| if text[i] == '/' { '_' } else { text[i] })
}

/// `text` with each path separator replaced by an underscore.
pub fn replace_separator(text: &str) -> (safe: String)
    ensures
        safe@ == without_separator(text@),
{
    let chars = to_chars(text);
    let mut safe = String::new();
    let mut i: usize = 0;
    while i < chars.len()
        invariant
            i <= chars.len(),
            chars@ == text@,
            safe@ == without_separator(text@).take(i as int),
        decreases chars.len() - i,
    {
        let c = if chars[i] == '/' { '_' } else { chars[i] };
        assert(without_separator(text@).take(i + 1) == without_separator(text@).take(i as int).push(c));
        push_char(&mut safe, c);
        i += 1;
    }
    assert(without_separator(text@).take(i as int) == without_separator(text@));
    safe
}

/// The token that names `hash` in a directory name: the base64 text of its
/// eight bytes, with the path separator replaced.
pub open spec fn hash_token_text(hash: u64) -> Seq<char> {
    without_separator(base64_text(be_bytes(hash)))
}

/// The token that names `hash` in a directory name.
pub fn hash_token(hash: u64) -> (token: String)
    ensures
        token@ == hash_token_text(hash),
{
    let bytes = to_be_bytes(hash);
    let text = base64_encode(&bytes);
    replace_separator(text.as_str())
}

/// Different six-bit values have different characters, and none of them is
/// the underscore.
pub proof fn lemma_base64_digit_injective(a: int, b: int)
    requires
        0 <= a < 64,
        0 <= b < 64,
    ensures
        base64_digit(a) == base64_digit(b) ==> a == b,
        base64_digit(a) != '_',
        base64_digit(a) != '=',
{
    assert(base64_digit(a) as u32 == base64_code(a));
    assert(base64_digit(b) as u32 == base64_code(b));
    assert('_' as u32 == 95);
    assert('=' as u32 == 61);
}

/// The base64 text of eight bytes: two groups of four characters for the
/// first six bytes, then three characters and one padding character for the
/// last two.
pub proof fn lemma_base64_of_eight(bytes: Seq<u8>)
    requires
        bytes.len() == 8,
    ensures
        base64_text(bytes) == seq![
            base64_digit(bytes[0] as int / 4),
            base64_digit((bytes[0] as int % 4) * 16 + bytes[1] as int / 16),
            base64_digit((bytes[1] as int % 16) * 4 + bytes[2] as int / 64),
            base64_digit(bytes[2] as int % 64),
            base64_digit(bytes[3] as int / 4),
            base64_digit((bytes[3] as int % 4) * 16 + bytes[4] as int / 16),
            base64_digit((bytes[4] as int % 16) * 4 + bytes[5] as int / 64),
            base64_digit(bytes[5] as int % 64),
            base64_digit(bytes[6] as int / 4),
            base64_digit((bytes[6] as int % 4) * 16 + bytes[7] as int / 16),
            base64_digit((bytes[7] as int % 16) * 4),
            '=',
        ],
{
    let second = bytes.skip(3);
    let third = second.skip(3);
    assert(second.len() == 5 && third.len() == 2);
    assert(second[0] == bytes[3] && second[1] == bytes[4] && second[2] == bytes[5]);
    assert(third[0] == bytes[6] && third[1] == bytes[7]);
    let tail = seq![
        base64_digit(third[0] as int / 4),
        base64_digit((third[0] as int % 4) * 16 + third[1] as int / 16),
        base64_digit((third[1] as int % 16) * 4),
        '=',
    ];
    assert(base64_text(third) == tail);
    let middle = seq![
        base64_digit(second[0] as int / 4),
        base64_digit((second[0] as int % 4) * 16 + second[1] as int / 16),
        base64_digit((second[1] as int % 16) * 4 + second[2] as int / 64),
        base64_digit(second[2] as int % 64),
    ];
    assert(base64_text(second) == middle + tail);
    let front = seq![
        base64_digit(bytes[0] as int / 4),
        base64_digit((bytes[0] as int % 4) * 16 + bytes[1] as int / 16),
        base64_digit((bytes[1] as int % 16) * 4 + bytes[2] as int / 64),
        base64_digit(bytes[2] as int % 64),
    ];
    assert(base64_text(bytes) == front + (middle + tail));
    assert(front + (middle + tail) =~= seq![
        base64_digit(bytes[0] as int / 4),
        base64_digit((bytes[0] as int % 4) * 16 + bytes[1] as int / 16),
        base64_digit((bytes[1] as int % 16) * 4 + bytes[2] as int / 64),
        base64_digit(bytes[2] as int % 64),
        base64_digit(bytes[3] as int / 4),
        base64_digit((bytes[3] as int % 4) * 16 + bytes[4] as int / 16),
        base64_digit((bytes[4] as int % 16) * 4 + bytes[5] as int / 64),
        base64_digit(bytes[5] as int % 64),
        base64_digit(bytes[6] as int / 4),
        base64_digit((bytes[6] as int % 4) * 16 + bytes[7] as int / 16),
        base64_digit((bytes[7] as int % 16) * 4),
        '=',
    ]);
}

/// Three bytes are determined by the four six-bit values of their group.
proof fn lemma_group_of_three(a0: u8, a1: u8, a2: u8, b0: u8, b1: u8, b2: u8)
    requires
        a0 as int / 4 == b0 as int / 4,
        (a0 as int % 4) * 16 + a1 as int / 16 == (b0 as int % 4) * 16 + b1 as int / 16,
        (a1 as int % 16) * 4 + a2 as int / 64 == (b1 as int % 16) * 4 + b2 as int / 64,
        a2 as int % 64 == b2 as int % 64,
    ensures
        a0 == b0,
        a1 == b1,
        a2 == b2,
{
}

/// Two bytes are determined by the three six-bit values of their group.
proof fn lemma_group_of_two(a0: u8, a1: u8, b0: u8, b1: u8)
    requires
        a0 as int / 4 == b0 as int / 4,
        (a0 as int % 4) * 16 + a1 as int / 16 == (b0 as int % 4) * 16 + b1 as int / 16,
        (a1 as int % 16) * 4 == (b1 as int % 16) * 4,
    ensures
        a0 == b0,
        a1 == b1,
{
}

/// Eight bytes are determined by their base64 text, also once the
/// separators in it are replaced.
pub proof fn lemma_base64_of_eight_injective(x: Seq<u8>, y: Seq<u8>)
    requires
        x.len() == 8,
        y.len() == 8,
        without_separator(base64_text(x)) == without_separator(base64_text(y)),
    ensures
        x == y,
{
    lemma_base64_of_eight(x);
    lemma_base64_of_eight(y);
    let s = base64_text(x);
    let t = base64_text(y);
    assert(s.len() == 12 && t.len() == 12);
    let m0 = x[0] as int / 4;
    let m1 = (x[0] as int % 4) * 16 + x[1] as int / 16;
    let m2 = (x[1] as int % 16) * 4 + x[2] as int / 64;
    let m3 = x[2] as int % 64;
    let n0 = y[0] as int / 4;
    let n1 = (y[0] as int % 4) * 16 + y[1] as int / 16;
    let n2 = (y[1] as int % 16) * 4 + y[2] as int / 64;
    let n3 = y[2] as int % 64;
    assert(s[0] == base64_digit(m0) && s[1] == base64_digit(m1) && s[2] == base64_digit(m2) && s[3]
        == base64_digit(m3));
    assert(t[0] == base64_digit(n0) && t[1] == base64_digit(n1) && t[2] == base64_digit(n2) && t[3]
        == base64_digit(n3));
    lemma_token_digit(s, t, 0, m0, n0);
    lemma_token_digit(s, t, 1, m1, n1);
    lemma_token_digit(s, t, 2, m2, n2);
    lemma_token_digit(s, t, 3, m3, n3);
    lemma_group_of_three(x[0], x[1], x[2], y[0], y[1], y[2]);
    let m4 = x[3] as int / 4;
    let m5 = (x[3] as int % 4) * 16 + x[4] as int / 16;
    let m6 = (x[4] as int % 16) * 4 + x[5] as int / 64;
    let m7 = x[5] as int % 64;
    let n4 = y[3] as int / 4;
    let n5 = (y[3] as int % 4) * 16 + y[4] as int / 16;
    let n6 = (y[4] as int % 16) * 4 + y[5] as int / 64;
    let n7 = y[5] as int % 64;
    assert(s[4] == base64_digit(m4) && s[5] == base64_digit(m5) && s[6] == base64_digit(m6) && s[7]
        == base64_digit(m7));
    assert(t[4] == base64_digit(n4) && t[5] == base64_digit(n5) && t[6] == base64_digit(n6) && t[7]
        == base64_digit(n7));
    lemma_token_digit(s, t, 4, m4, n4);
    lemma_token_digit(s, t, 5, m5, n5);
    lemma_token_digit(s, t, 6, m6, n6);
    lemma_token_digit(s, t, 7, m7, n7);
    lemma_group_of_three(x[3], x[4], x[5], y[3], y[4], y[5]);
    let m8 = x[6] as int / 4;
    let m9 = (x[6] as int % 4) * 16 + x[7] as int / 16;
    let m10 = (x[7] as int % 16) * 4;
    let n8 = y[6] as int / 4;
    let n9 = (y[6] as int % 4) * 16 + y[7] as int / 16;
    let n10 = (y[7] as int % 16) * 4;
    assert(s[8] == base64_digit(m8) && s[9] == base64_digit(m9) && s[10] == base64_digit(m10));
    assert(t[8] == base64_digit(n8) && t[9] == base64_digit(n9) && t[10] == base64_digit(n10));
    lemma_token_digit(s, t, 8, m8, n8);
    lemma_token_digit(s, t, 9, m9, n9);
    lemma_token_digit(s, t, 10, m10, n10);
    lemma_group_of_two(x[6], x[7], y[6], y[7]);
    assert(x =~= y);
}

/// Different hashes have different tokens.
pub proof fn lemma_hash_token_injective(a: u64, b: u64)
    requires
        hash_token_text(a) == hash_token_text(b),
    ensures
        a == b,
{
    assert(be_bytes(a).len() == 8 && be_bytes(b).len() == 8);
    lemma_base64_of_eight_injective(be_bytes(a), be_bytes(b));
    lemma_be_bytes_injective(a, b);
}

/// Where two texts agree once their separators are replaced, and both hold
/// a base64 digit at a position, the digits stand for the same value.
proof fn lemma_token_digit(s: Seq<char>, t: Seq<char>, i: int, p: int, q: int)
    requires
        without_separator(s) == without_separator(t),
        0 <= i < s.len(),
        i < t.len(),
        0 <= p < 64,
        0 <= q < 64,
        s[i] == base64_digit(p),
        t[i] == base64_digit(q),
    ensures
        p == q,
{
    lemma_base64_digit_injective(p, q);
    lemma_base64_digit_injective(q, p);
    let safe_s = without_separator(s);
    let safe_t = without_separator(t);
    assert(safe_s[i] == safe_t[i]);
    assert(safe_s[i] == if s[i] == '/' { '_' } else { s[i] });
    assert(safe_t[i] == if t[i] == '/' { '_' } else { t[i] });
    assert(s[i] == t[i]);
}

} // verus!
