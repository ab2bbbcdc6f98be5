//! Rendering of numbers and byte strings inside error messages.
//!
//! Messages follow Rust's own formatting: `{}` on an integer gives its decimal
//! digits, and `{:02x?}` on a byte slice gives `[30, 2a, ...]`.
use vstd::prelude::*;

verus! {

/// The sixteen lowercase hexadecimal digits, in order.
pub open spec fn hex_digits() -> Seq<char> {
    seq!['0', '1', '2', '3', '4', '5', '6', '7', '8', '9', 'a', 'b', 'c', 'd', 'e', 'f']
}

/// Decimal digits of `n`, most significant first, with no leading zeros.
pub open spec fn decimal(n: nat) -> Seq<char>
    decreases n,
{
    if n < 10 {
        seq![hex_digits()[n as int]]
    } else {
        decimal(n / 10) + seq![hex_digits()[(n % 10) as int]]
    }
}

/// A byte as exactly two lowercase hexadecimal digits (`{:02x}`).
pub open spec fn hex_byte(b: u8) -> Seq<char> {
    seq![hex_digits()[(b / 16) as int], hex_digits()[(b % 16) as int]]
}

/// The bytes as `{:02x}` items separated by `", "`, without brackets.
pub open spec fn hex_items(bytes: Seq<u8>) -> Seq<char>
    decreases bytes.len(),
{
    if bytes.len() == 0 {
        Seq::empty()
    } else if bytes.len() == 1 {
        hex_byte(bytes[0])
    } else {
        hex_items(bytes.drop_last()) + seq![',', ' '] + hex_byte(bytes.last())
    }
}

/// A byte slice as `{:02x?}` renders it: `[` items `]`.
pub open spec fn hex_list(bytes: Seq<u8>) -> Seq<char> {
    seq!['['] + hex_items(bytes) + seq![']']
}

/// The one-character string holding hexadecimal digit `d`.
fn digit_str(d: usize) -> (res: &'static str)
    requires
        d < 16,
    ensures
        res@ == seq![hex_digits()[d as int]],
{
    let digits = "0123456789abcdef";
    proof {
        reveal_strlit("0123456789abcdef");
    }
    assert(digits@ == hex_digits());
    let res = digits.substring_char(d, d + 1);
    assert(res@ =~= seq![hex_digits()[d as int]]);
    res
}

/// Appends the decimal digits of `n` to `s`.
pub fn push_decimal(s: &mut String, n: usize)
    ensures
        final(s)@ == old(s)@ + decimal(n as nat),
    decreases n,
{
    if n >= 10 {
        push_decimal(s, n / 10);
    }
    s.append(digit_str(n % 10));
    proof {
        if n >= 10 {
            assert(old(s)@ + decimal(n as nat) =~= old(s)@ + decimal((n / 10) as nat) + seq![
                hex_digits()[(n % 10) as int],
            ]);
        } else {
            assert(decimal(n as nat) =~= seq![hex_digits()[(n % 10) as int]]);
        }
    }
}

/// Appends `b` as two lowercase hexadecimal digits to `s`.
fn push_hex_byte(s: &mut String, b: u8)
    ensures
        final(s)@ == old(s)@ + hex_byte(b),
{
    s.append(digit_str((b / 16) as usize));
    s.append(digit_str((b % 16) as usize));
    assert(s@ =~= old(s)@ + hex_byte(b));
}

/// Appends `bytes` to `s` the way `{:02x?}` renders a byte slice.
pub fn push_hex_list(s: &mut String, bytes: &[u8])
    ensures
        final(s)@ == old(s)@ + hex_list(bytes@),
{
    proof {
        reveal_strlit("[");
        reveal_strlit(", ");
        reveal_strlit("]");
    }
    s.append("[");
    let n = bytes.len();
    let mut i: usize = 0;
    while i < n
        invariant
            n == bytes@.len(),
            i <= n,
            s@ == old(s)@ + seq!['['] + hex_items(bytes@.take(i as int)),
        decreases n - i,
    {
        let ghost before = s@;
        proof {
            reveal_strlit(", ");
        }
        if i > 0 {
            s.append(", ");
        }
        push_hex_byte(s, bytes[i]);
        proof {
            let t = bytes@.take(i + 1);
            assert(t.drop_last() =~= bytes@.take(i as int));
            assert(t.last() == bytes@[i as int]);
            if i == 0 {
                assert(hex_items(t) == hex_byte(bytes@[0]));
                assert(s@ =~= before + hex_byte(bytes@[0]));
            } else {
                assert(hex_items(t) == hex_items(bytes@.take(i as int)) + seq![',', ' ']
                    + hex_byte(bytes@[i as int]));
                assert(s@ =~= before + seq![',', ' '] + hex_byte(bytes@[i as int]));
            }
            assert(s@ =~= old(s)@ + seq!['['] + hex_items(t));
        }
        i = i + 1;
    }
    s.append("]");
    assert(bytes@.take(n as int) =~= bytes@);
    assert(s@ =~= old(s)@ + hex_list(bytes@));
}

} // verus!
