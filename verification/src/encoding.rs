//! Standard base64 (RFC 4648: the alphabet `A-Z a-z 0-9 + /`, `=` padding).

use vstd::prelude::*;

verus! {

/// The base64 digit for the six-bit value `i`.
pub open spec fn b64_char(i: nat) -> char {
    if i < 26 {
        (65 + i) as char
    } else if i < 52 {
        (97 + (i - 26)) as char
    } else if i < 62 {
        (48 + (i - 52)) as char
    } else if i == 62 {
        '+'
    } else {
        '/'
    }
}

/// The six-bit value of the base64 digit `c`, if it is one.
pub open spec fn b64_value(c: char) -> Option<nat> {
    let u = c as u32;
    if 65 <= u <= 90 {
        Some((u - 65) as nat)
    } else if 97 <= u <= 122 {
        Some((u - 97 + 26) as nat)
    } else if 48 <= u <= 57 {
        Some((u - 48 + 52) as nat)
    } else if c == '+' {
        Some(62)
    } else if c == '/' {
        Some(63)
    } else {
        None
    }
}

/// The base64 text of `bytes`: each group of three bytes as four digits, a
/// last group of one or two bytes as two or three digits and `=` padding.
pub open spec fn base64_standard(bytes: Seq<u8>) -> Seq<char>
    decreases bytes.len(),
{
    if bytes.len() == 0 {
        Seq::empty()
    } else if bytes.len() == 1 {
        let a = bytes[0] as nat;
        seq![b64_char(a / 4), b64_char((a % 4) * 16), '=', '=']
    } else if bytes.len() == 2 {
        let a = bytes[0] as nat;
        let b = bytes[1] as nat;
        seq![b64_char(a / 4), b64_char((a % 4) * 16 + b / 16), b64_char((b % 16) * 4), '=']
    } else {
        let a = bytes[0] as nat;
        let b = bytes[1] as nat;
        let c = bytes[2] as nat;
        seq![
            b64_char(a / 4),
            b64_char((a % 4) * 16 + b / 16),
            b64_char((b % 16) * 4 + c / 64),
            b64_char(c % 64),
        ] + base64_standard(bytes.subrange(3, bytes.len() as int))
    }
}

/// The length of the padded base64 encoding of `n` bytes.
pub open spec fn base64_len(n: nat) -> nat {
    4 * ((n + 2) / 3)
}

/// The bytes that the base64 text `s` stands for, if it is well formed.
#[verifier::opaque]
pub open spec fn base64_decode(s: Seq<char>) -> Option<Seq<u8>>
    decreases s.len(),
{
    if s.len() == 0 {
        Some(Seq::empty())
    } else if s.len() < 4 {
        None
    } else {
        match (b64_value(s[0]), b64_value(s[1])) {
            (Some(i0), Some(i1)) => {
                let a = (i0 * 4 + i1 / 16) as u8;
                if s.len() == 4 && s[2] == '=' && s[3] == '=' {
                    Some(seq![a])
                } else {
                    match b64_value(s[2]) {
                        Some(i2) => {
                            let b = ((i1 % 16) * 16 + i2 / 4) as u8;
                            if s.len() == 4 && s[3] == '=' {
                                Some(seq![a, b])
                            } else {
                                match b64_value(s[3]) {
                                    Some(i3) => {
                                        let c = ((i2 % 4) * 64 + i3) as u8;
                                        match base64_decode(s.subrange(4, s.len() as int)) {
                                            Some(rest) => Some(seq![a, b, c] + rest),
                                            None => None,
                                        }
                                    },
                                    None => None,
                                }
                            }
                        },
                        None => None,
                    }
                }
            },
            _ => None,
        }
    }
}

proof fn lemma_digit_round_trip(i: nat)
    requires
        i < 64,
    ensures
        b64_value(b64_char(i)) == Some(i),
        b64_char(i) != '=',
{
}

proof fn lemma_group_arith(a: nat, b: nat, c: nat)
    requires
        a < 256,
        b < 256,
        c < 256,
    ensures
        a / 4 < 64,
        (a % 4) * 16 + b / 16 < 64,
        (b % 16) * 4 + c / 64 < 64,
        c % 64 < 64,
        (a % 4) * 16 < 64,
        (b % 16) * 4 < 64,
        (a / 4) * 4 + ((a % 4) * 16 + b / 16) / 16 == a,
        (a / 4) * 4 + ((a % 4) * 16) / 16 == a,
        (((a % 4) * 16 + b / 16) % 16) * 16 + ((b % 16) * 4 + c / 64) / 4 == b,
        (((a % 4) * 16 + b / 16) % 16) * 16 + ((b % 16) * 4) / 4 == b,
        (((b % 16) * 4 + c / 64) % 4) * 64 + c % 64 == c,
{
}

proof fn lemma_decode_full(i0: nat, i1: nat, i2: nat, i3: nat, t: Seq<char>)
    requires
        i0 < 64,
        i1 < 64,
        i2 < 64,
        i3 < 64,
    ensures
        base64_decode(seq![b64_char(i0), b64_char(i1), b64_char(i2), b64_char(i3)] + t) == match base64_decode(t) {
            Some(r) => Some(
                seq![
                    (i0 * 4 + i1 / 16) as u8,
                    ((i1 % 16) * 16 + i2 / 4) as u8,
                    ((i2 % 4) * 64 + i3) as u8,
                ] + r,
            ),
            None => None::<Seq<u8>>,
        },
{
    reveal(base64_decode);
    lemma_digit_round_trip(i0);
    lemma_digit_round_trip(i1);
    lemma_digit_round_trip(i2);
    lemma_digit_round_trip(i3);
    let s = seq![b64_char(i0), b64_char(i1), b64_char(i2), b64_char(i3)] + t;
    assert(s[0] == b64_char(i0));
    assert(s[1] == b64_char(i1));
    assert(s[2] == b64_char(i2));
    assert(s[3] == b64_char(i3));
    assert(s.subrange(4, s.len() as int) =~= t);
}

proof fn lemma_decode_one(i0: nat, i1: nat)
    requires
        i0 < 64,
        i1 < 64,
    ensures
        base64_decode(seq![b64_char(i0), b64_char(i1), '=', '=']) == Some(seq![(i0 * 4 + i1 / 16) as u8]),
{
    reveal(base64_decode);
    lemma_digit_round_trip(i0);
    lemma_digit_round_trip(i1);
}

proof fn lemma_decode_two(i0: nat, i1: nat, i2: nat)
    requires
        i0 < 64,
        i1 < 64,
        i2 < 64,
    ensures
        base64_decode(seq![b64_char(i0), b64_char(i1), b64_char(i2), '=']) == Some(
            seq![(i0 * 4 + i1 / 16) as u8, ((i1 % 16) * 16 + i2 / 4) as u8],
        ),
{
    reveal(base64_decode);
    lemma_digit_round_trip(i0);
    lemma_digit_round_trip(i1);
    lemma_digit_round_trip(i2);
}

/// Law: the base64 text of `bytes` (as `capture` answers a screenshot)
/// decodes back to exactly `bytes`, and has four characters for every three
/// bytes or part of three.
pub proof fn lemma_base64_decodes_back(bytes: Seq<u8>)
    ensures
        base64_decode(base64_standard(bytes)) == Some(bytes),
        base64_standard(bytes).len() == base64_len(bytes.len()),
    decreases bytes.len(),
{
    if bytes.len() == 0 {
        reveal(base64_decode);
    } else if bytes.len() == 1 {
        let a = bytes[0] as nat;
        lemma_group_arith(a, 0, 0);
        lemma_decode_one(a / 4, (a % 4) * 16);
        assert(((a / 4) * 4 + ((a % 4) * 16) / 16) as u8 == bytes[0]);
        assert(seq![bytes[0]] =~= bytes);
    } else if bytes.len() == 2 {
        let a = bytes[0] as nat;
        let b = bytes[1] as nat;
        lemma_group_arith(a, b, 0);
        lemma_decode_two(a / 4, (a % 4) * 16 + b / 16, (b % 16) * 4);
        assert(((a / 4) * 4 + ((a % 4) * 16 + b / 16) / 16) as u8 == bytes[0]);
        assert((((a % 4) * 16 + b / 16) % 16 * 16 + ((b % 16) * 4) / 4) as u8 == bytes[1]);
        assert(seq![bytes[0], bytes[1]] =~= bytes);
    } else {
        let a = bytes[0] as nat;
        let b = bytes[1] as nat;
        let c = bytes[2] as nat;
        let rest = bytes.subrange(3, bytes.len() as int);
        lemma_group_arith(a, b, c);
        lemma_base64_decodes_back(rest);
        lemma_decode_full(a / 4, (a % 4) * 16 + b / 16, (b % 16) * 4 + c / 64, c % 64, base64_standard(rest));
        assert(base64_standard(bytes) == seq![
            b64_char(a / 4),
            b64_char((a % 4) * 16 + b / 16),
            b64_char((b % 16) * 4 + c / 64),
            b64_char(c % 64),
        ] + base64_standard(rest));
        assert(((a / 4) * 4 + ((a % 4) * 16 + b / 16) / 16) as u8 == bytes[0]);
        assert((((a % 4) * 16 + b / 16) % 16 * 16 + ((b % 16) * 4 + c / 64) / 4) as u8 == bytes[1]);
        assert(((((b % 16) * 4 + c / 64) % 4) * 64 + c % 64) as u8 == bytes[2]);
        assert(seq![bytes[0], bytes[1], bytes[2]] + rest =~= bytes);
    }
}

} // verus!
