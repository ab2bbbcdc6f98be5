//! Standard base64 (RFC 4648, section 4): the alphabet `A`–`Z`, `a`–`z`,
//! `0`–`9`, `+`, `/`, and `=` padding to a multiple of four characters.
//!
//! Every three bytes become four characters of six bits each; a final group of
//! one or two bytes becomes two or three characters followed by `==` or `=`.
//! Decoding reverses this, and decoding an encoding gives the bytes back.
use vstd::prelude::*;

verus! {

/// The character of the standard alphabet with six-bit value `v`.
pub open spec fn base64_char(v: int) -> char {
    if v < 26 {
        (v + 65) as char  // 'A'..='Z'
    } else if v < 52 {
        (v - 26 + 97) as char  // 'a'..='z'
    } else if v < 62 {
        (v - 52 + 48) as char  // '0'..='9'
    } else if v == 62 {
        '+'
    } else {
        '/'
    }
}

/// The six-bit value of a character of the standard alphabet.
pub open spec fn base64_value(c: char) -> int {
    if 'A' <= c && c <= 'Z' {
        c as int - 65
    } else if 'a' <= c && c <= 'z' {
        c as int - 97 + 26
    } else if '0' <= c && c <= '9' {
        c as int - 48 + 52
    } else if c == '+' {
        62
    } else {
        63
    }
}

/// The characters that standard padded base64 text is made of.
pub open spec fn is_base64_char(c: char) -> bool {
    ||| ('A' <= c && c <= 'Z')
    ||| ('a' <= c && c <= 'z')
    ||| ('0' <= c && c <= '9')
    ||| c == '+'
    ||| c == '/'
    ||| c == '='
}

/// Standard base64 text of `bytes`, padded with `=`.
pub open spec fn base64_standard(bytes: Seq<u8>) -> Seq<char>
    decreases bytes.len(),
{
    if bytes.len() == 0 {
        Seq::empty()
    } else if bytes.len() == 1 {
        let b0 = bytes[0] as int;
        seq![base64_char(b0 / 4), base64_char((b0 % 4) * 16), '=', '=']
    } else if bytes.len() == 2 {
        let (b0, b1) = (bytes[0] as int, bytes[1] as int);
        seq![
            base64_char(b0 / 4),
            base64_char((b0 % 4) * 16 + b1 / 16),
            base64_char((b1 % 16) * 4),
            '=',
        ]
    } else {
        let (b0, b1, b2) = (bytes[0] as int, bytes[1] as int, bytes[2] as int);
        seq![
            base64_char(b0 / 4),
            base64_char((b0 % 4) * 16 + b1 / 16),
            base64_char((b1 % 16) * 4 + b2 / 64),
            base64_char(b2 % 64),
        ] + base64_standard(bytes.subrange(3, bytes.len() as int))
    }
}

/// The bytes of standard base64 text, four characters at a time; `=` in the
/// third or fourth place of a group ends the data with one or two bytes.
pub open spec fn base64_decode(text: Seq<char>) -> Seq<u8>
    decreases text.len(),
{
    if text.len() < 4 {
        Seq::empty()
    } else {
        let v0 = base64_value(text[0]);
        let v1 = base64_value(text[1]);
        let v2 = base64_value(text[2]);
        let v3 = base64_value(text[3]);
        let b0 = (v0 * 4 + v1 / 16) as u8;
        let b1 = ((v1 % 16) * 16 + v2 / 4) as u8;
        let b2 = ((v2 % 4) * 64 + v3) as u8;
        let group = if text[2] == '=' {
            seq![b0]
        } else if text[3] == '=' {
            seq![b0, b1]
        } else {
            seq![b0, b1, b2]
        };
        group + base64_decode(text.subrange(4, text.len() as int))
    }
}

/// Each six-bit value has its own alphabet character, which is not `=`, and
/// reading that character gives the value back.
pub proof fn lemma_base64_char(v: int)
    requires
        0 <= v < 64,
    ensures
        base64_value(base64_char(v)) == v,
        is_base64_char(base64_char(v)),
        base64_char(v) != '=',
{
}

/// Standard base64 text has four characters for every three bytes or part of
/// three, all from the alphabet or `=`.
pub proof fn lemma_base64_shape(bytes: Seq<u8>)
    ensures
        base64_standard(bytes).len() == 4 * ((bytes.len() + 2) / 3),
        forall|i: int|
            0 <= i < base64_standard(bytes).len() ==> is_base64_char(
                #[trigger] base64_standard(bytes)[i],
            ),
    decreases bytes.len(),
{
    if bytes.len() >= 1 {
        let b0 = bytes[0] as int;
        lemma_base64_char(b0 / 4);
        lemma_base64_char((b0 % 4) * 16);
        if bytes.len() >= 2 {
            let b1 = bytes[1] as int;
            lemma_base64_char((b0 % 4) * 16 + b1 / 16);
            lemma_base64_char((b1 % 16) * 4);
            if bytes.len() >= 3 {
                let b2 = bytes[2] as int;
                lemma_base64_char((b1 % 16) * 4 + b2 / 64);
                lemma_base64_char(b2 % 64);
                let rest = bytes.subrange(3, bytes.len() as int);
                lemma_base64_shape(rest);
                let head = seq![
                    base64_char(b0 / 4),
                    base64_char((b0 % 4) * 16 + b1 / 16),
                    base64_char((b1 % 16) * 4 + b2 / 64),
                    base64_char(b2 % 64),
                ];
                assert(base64_standard(bytes) == head + base64_standard(rest));
                assert forall|i: int| 0 <= i < base64_standard(bytes).len() implies is_base64_char(
                    #[trigger] base64_standard(bytes)[i],
                ) by {
                    if i >= 4 {
                        assert(base64_standard(bytes)[i] == base64_standard(rest)[i - 4]);
                    }
                }
            }
        }
    }
}

/// Decoding the standard base64 text of any bytes gives those bytes back.
pub proof fn lemma_base64_round_trip(bytes: Seq<u8>)
    ensures
        base64_decode(base64_standard(bytes)) == bytes,
    decreases bytes.len(),
{
    if bytes.len() == 0 {
        assert(base64_decode(base64_standard(bytes)) =~= bytes);
    } else {
        let b0 = bytes[0] as int;
        lemma_base64_char(b0 / 4);
        lemma_base64_char((b0 % 4) * 16);
        if bytes.len() == 1 {
            let text = base64_standard(bytes);
            assert(text.subrange(4, 4) =~= Seq::<char>::empty());
            assert(base64_decode(Seq::<char>::empty()) =~= Seq::<u8>::empty());
            assert(text[2] == '=');
            assert(base64_value(text[0]) == b0 / 4);
            assert(base64_value(text[1]) == (b0 % 4) * 16);
            assert((base64_value(text[0]) * 4 + base64_value(text[1]) / 16) as u8 == bytes[0]);
            assert(base64_decode(text) =~= bytes);
        } else {
            let b1 = bytes[1] as int;
            lemma_base64_char((b0 % 4) * 16 + b1 / 16);
            lemma_base64_char((b1 % 16) * 4);
            if bytes.len() == 2 {
                let text = base64_standard(bytes);
                assert(text.subrange(4, 4) =~= Seq::<char>::empty());
                assert(base64_decode(Seq::<char>::empty()) =~= Seq::<u8>::empty());
                assert(text[2] != '=' && text[3] == '=');
                let v0 = base64_value(text[0]);
                let v1 = base64_value(text[1]);
                let v2 = base64_value(text[2]);
                assert(v0 == b0 / 4 && v1 == (b0 % 4) * 16 + b1 / 16 && v2 == (b1 % 16) * 4);
                assert((v0 * 4 + v1 / 16) as u8 == bytes[0]);
                assert(((v1 % 16) * 16 + v2 / 4) as u8 == bytes[1]);
                assert(base64_decode(text) =~= bytes);
            } else {
                let b2 = bytes[2] as int;
                lemma_base64_char((b1 % 16) * 4 + b2 / 64);
                lemma_base64_char(b2 % 64);
                let rest = bytes.subrange(3, bytes.len() as int);
                lemma_base64_round_trip(rest);
                let head = seq![
                    base64_char(b0 / 4),
                    base64_char((b0 % 4) * 16 + b1 / 16),
                    base64_char((b1 % 16) * 4 + b2 / 64),
                    base64_char(b2 % 64),
                ];
                let text = base64_standard(bytes);
                assert(text == head + base64_standard(rest));
                assert(text.subrange(4, text.len() as int) =~= base64_standard(rest));
                assert(base64_decode(text) =~= bytes);
            }
        }
    }
}

/// The RFC 4648 standard alphabet, written out: the character for six-bit
/// value `v` is at index `v`.
pub open spec fn rfc4648_alphabet() -> Seq<char> {
    seq!['A', 'B', 'C', 'D', 'E', 'F', 'G', 'H', 'I', 'J', 'K', 'L', 'M', 'N', 'O', 'P', 'Q', 'R', 'S', 'T', 'U', 'V', 'W', 'X', 'Y', 'Z', 'a', 'b', 'c', 'd', 'e', 'f', 'g', 'h', 'i', 'j', 'k', 'l', 'm', 'n', 'o', 'p', 'q', 'r', 's', 't', 'u', 'v', 'w', 'x', 'y', 'z', '0', '1', '2', '3', '4', '5', '6', '7', '8', '9', '+', '/']
}

/// Byte `k` (0, 1 or 2) of the `g`-th group of three in `bytes`, or 0 past
/// the end, where the last group is filled up with zero bits.
pub open spec fn group_byte(bytes: Seq<u8>, g: int, k: int) -> int {
    if 0 <= 3 * g + k < bytes.len() {
        bytes[3 * g + k] as int
    } else {
        0
    }
}

/// The `i`-th six-bit value of `bytes` read as one big-endian bit string,
/// zero-filled at the end: the four sextets of a group of three bytes
/// `b0 b1 b2` are the top six bits of `b0`, then the low two of `b0` with the
/// top four of `b1`, then the low four of `b1` with the top two of `b2`, then
/// the low six of `b2`.
pub open spec fn sextet(bytes: Seq<u8>, i: int) -> int {
    let g = i / 4;
    let b0 = group_byte(bytes, g, 0);
    let b1 = group_byte(bytes, g, 1);
    let b2 = group_byte(bytes, g, 2);
    if i % 4 == 0 {
        b0 / 4
    } else if i % 4 == 1 {
        (b0 % 4) * 16 + b1 / 16
    } else if i % 4 == 2 {
        (b1 % 16) * 4 + b2 / 64
    } else {
        b2 % 64
    }
}

/// The alphabet character of each six-bit value is the one RFC 4648 lists.
pub proof fn lemma_base64_char_is_rfc4648(v: int)
    requires
        0 <= v < 64,
    ensures
        base64_char(v) == rfc4648_alphabet()[v],
{
}

/// Standard base64 is canonical RFC 4648 text: each of the first
/// `ceil(8n / 6)` characters is the alphabet character of the corresponding
/// six bits of the input (the last one zero-filled), and only the padding that
/// completes the final group of four is `=`.
pub proof fn lemma_base64_canonical(bytes: Seq<u8>)
    ensures
        base64_standard(bytes).len() == 4 * ((bytes.len() + 2) / 3),
        forall|i: int|
            0 <= i < (4 * bytes.len() + 2) / 3 ==> {
                &&& #[trigger] base64_standard(bytes)[i] == rfc4648_alphabet()[sextet(bytes, i)]
                &&& base64_standard(bytes)[i] != '='
            },
        forall|i: int|
            (4 * bytes.len() + 2) / 3 <= i < base64_standard(bytes).len() ==> #[trigger] base64_standard(
                bytes,
            )[i] == '=',
    decreases bytes.len(),
{
    lemma_base64_shape(bytes);
    let n = bytes.len();
    let text = base64_standard(bytes);
    if n == 0 {
    } else {
        assert forall|i: int| 0 <= i < 4 && i < (4 * n + 2) / 3 implies {
            &&& text[i] == rfc4648_alphabet()[sextet(bytes, i)]
            &&& text[i] != '='
        } by {
            assert(i / 4 == 0);
            let v = sextet(bytes, i);
            assert(0 <= v < 64);
            lemma_base64_char_is_rfc4648(v);
            lemma_base64_char(v);
        }
        if n >= 3 {
            let rest = bytes.subrange(3, n as int);
            lemma_base64_canonical(rest);
            let (b0, b1, b2) = (bytes[0] as int, bytes[1] as int, bytes[2] as int);
            let head = seq![
                base64_char(b0 / 4),
                base64_char((b0 % 4) * 16 + b1 / 16),
                base64_char((b1 % 16) * 4 + b2 / 64),
                base64_char(b2 % 64),
            ];
            assert(text == head + base64_standard(rest));
            assert forall|i: int| 4 <= i < (4 * n + 2) / 3 implies {
                &&& text[i] == rfc4648_alphabet()[sextet(bytes, i)]
                &&& text[i] != '='
            } by {
                assert(text[i] == base64_standard(rest)[i - 4]);
                assert((i - 4) / 4 == i / 4 - 1);
                assert((i - 4) % 4 == i % 4);
                assert(group_byte(rest, i / 4 - 1, 0) == group_byte(bytes, i / 4, 0));
                assert(group_byte(rest, i / 4 - 1, 1) == group_byte(bytes, i / 4, 1));
                assert(group_byte(rest, i / 4 - 1, 2) == group_byte(bytes, i / 4, 2));
                assert(sextet(rest, i - 4) == sextet(bytes, i));
            }
            assert forall|i: int| (4 * n + 2) / 3 <= i < text.len() implies text[i] == '=' by {
                assert(text[i] == base64_standard(rest)[i - 4]);
            }
        }
    }
}

} // verus!
