//! Fixed-width decimal and hexadecimal text codecs.
//!
//! Session tokens carry their numeric claims as zero-padded decimal fields of
//! a fixed width, and their signature as lowercase hexadecimal, so that a
//! token can be taken apart by position alone. Width
//! [`U64_DIGITS`](crate::token) is enough for every `u64` value, which makes
//! encoding injective and parsing its exact inverse.

use vstd::prelude::*;

verus! {

/// The decimal digit character for one digit value; digits ten and above do
/// not occur.
pub open spec fn digit_char(d: u8) -> char {
    if d == 0 {
        '0'
    } else if d == 1 {
        '1'
    } else if d == 2 {
        '2'
    } else if d == 3 {
        '3'
    } else if d == 4 {
        '4'
    } else if d == 5 {
        '5'
    } else if d == 6 {
        '6'
    } else if d == 7 {
        '7'
    } else if d == 8 {
        '8'
    } else {
        '9'
    }
}

/// The digit value of a character, if it is a decimal digit.
pub open spec fn char_digit(c: char) -> Option<u8> {
    match c {
        '0' => Some(0u8),
        '1' => Some(1u8),
        '2' => Some(2u8),
        '3' => Some(3u8),
        '4' => Some(4u8),
        '5' => Some(5u8),
        '6' => Some(6u8),
        '7' => Some(7u8),
        '8' => Some(8u8),
        '9' => Some(9u8),
        _ => None,
    }
}

/// Ten to the given power.
pub open spec fn pow10(w: nat) -> nat
    decreases w,
{
    if w == 0 {
        1
    } else {
        10 * pow10((w - 1) as nat)
    }
}

/// The zero-padded decimal rendering of `n` in exactly `w` digit characters,
/// most significant first. Faithful whenever `n < pow10(w)`.
pub open spec fn dec_pad(n: nat, w: nat) -> Seq<char>
    decreases w,
{
    if w == 0 {
        Seq::empty()
    } else {
        dec_pad(n / 10, (w - 1) as nat).push(digit_char((n % 10) as u8))
    }
}

/// Whether every character of a sequence is a decimal digit.
pub open spec fn all_digits(s: Seq<char>) -> bool {
    forall|i: int| 0 <= i < s.len() ==> char_digit(s[i]) is Some
}

/// The numeric value of a digit sequence, most significant first.
pub open spec fn digits_val(s: Seq<char>) -> nat
    decreases s.len(),
{
    if s.len() == 0 {
        0
    } else {
        digits_val(s.drop_last()) * 10 + char_digit(s.last()).unwrap_or(0) as nat
    }
}

/// What parsing a fixed decimal field yields: the value of the digits, or
/// nothing when a character is not a digit or the value does not fit in
/// `u64`.
pub open spec fn spec_parse_u64(s: Seq<char>) -> Option<u64> {
    if all_digits(s) && digits_val(s) <= u64::MAX {
        Some(digits_val(s) as u64)
    } else {
        None
    }
}

/// Relies on `String::push` of std: appends exactly one character.
#[verifier::external_body]
pub(crate) fn push_char(s: &mut String, c: char)
    ensures
        final(s)@ == old(s)@ + seq![c],
{
    s.push(c);
}

/// The digit character of a digit value, executably.
fn digit_char_of(d: u8) -> (res: char)
    requires
        d < 10,
    ensures
        res == digit_char(d),
{
    match d {
        0 => '0',
        1 => '1',
        2 => '2',
        3 => '3',
        4 => '4',
        5 => '5',
        6 => '6',
        7 => '7',
        8 => '8',
        _ => '9',
    }
}

/// The digit value of a character, executably.
fn char_digit_of(c: char) -> (res: Option<u8>)
    ensures
        res == char_digit(c),
{
    match c {
        '0' => Some(0u8),
        '1' => Some(1u8),
        '2' => Some(2u8),
        '3' => Some(3u8),
        '4' => Some(4u8),
        '5' => Some(5u8),
        '6' => Some(6u8),
        '7' => Some(7u8),
        '8' => Some(8u8),
        '9' => Some(9u8),
        _ => None,
    }
}

/// Appends the zero-padded `width`-digit decimal rendering of `n`.
pub fn push_dec_pad(out: &mut String, n: u64, width: usize)
    ensures
        final(out)@ == old(out)@ + dec_pad(n as nat, width as nat),
    decreases width,
{
    if width == 0 {
        proof {
            assert(old(out)@ + dec_pad(n as nat, 0) =~= old(out)@);
        }
        return ;
    }
    push_dec_pad(out, n / 10, width - 1);
    let d: u8 = (n % 10) as u8;
    push_char(out, digit_char_of(d));
    proof {
        assert(final(out)@ =~= old(out)@ + dec_pad(n as nat, width as nat));
    }
}

/// Every fixed-width decimal rendering has exactly its width, in digits.
pub proof fn lemma_dec_pad_wf(n: nat, w: nat)
    ensures
        dec_pad(n, w).len() == w,
        all_digits(dec_pad(n, w)),
    decreases w,
{
    if w > 0 {
        lemma_dec_pad_wf(n / 10, (w - 1) as nat);
        let s = dec_pad(n, w);
        assert forall|i: int| 0 <= i < s.len() implies char_digit(s[i]) is Some by {
            if i < w - 1 {
                assert(s[i] == dec_pad(n / 10, (w - 1) as nat)[i]);
            }
        }
    }
}

/// Parsing undoes fixed-width rendering: the digits of `n` evaluate back to
/// `n` whenever `n` fits the width.
pub proof fn lemma_dec_pad_val(n: nat, w: nat)
    requires
        n < pow10(w),
    ensures
        digits_val(dec_pad(n, w)) == n,
    decreases w,
{
    if w == 0 {
        assert(dec_pad(n, 0).len() == 0);
    } else {
        lemma_dec_pad_wf(n / 10, (w - 1) as nat);
        lemma_dec_pad_val(n / 10, (w - 1) as nat);
        let s = dec_pad(n, w);
        assert(s.drop_last() == dec_pad(n / 10, (w - 1) as nat));
        assert(digits_val(s) == (n / 10) * 10 + n % 10);
    }
}

/// Twenty decimal digits cover every `u64` value.
pub proof fn lemma_pow10_20_large()
    ensures
        pow10(20) > u64::MAX,
{
    reveal_with_fuel(pow10, 21);
}

/// A digit prefix never evaluates above the whole sequence.
proof fn lemma_digits_val_prefix(s: Seq<char>, i: int)
    requires
        0 <= i <= s.len(),
    ensures
        digits_val(s.subrange(0, i)) <= digits_val(s),
    decreases s.len() - i,
{
    if i < s.len() {
        lemma_digits_val_prefix(s, i + 1);
        assert(s.subrange(0, i + 1).drop_last() == s.subrange(0, i));
        assert(digits_val(s.subrange(0, i + 1)) == digits_val(s.subrange(0, i)) * 10
            + char_digit(s.subrange(0, i + 1).last()).unwrap_or(0));
    } else {
        assert(s.subrange(0, i) =~= s);
    }
}

/// Parses the characters `[from, to)` of a string as a fixed decimal field.
pub fn parse_dec_field(s: &str, from: usize, to: usize) -> (res: Option<u64>)
    requires
        from <= to <= s@.len(),
    ensures
        res == spec_parse_u64(s@.subrange(from as int, to as int)),
{
    let ghost field = s@.subrange(from as int, to as int);
    let mut acc: u64 = 0;
    let mut i: usize = from;
    while i < to
        invariant
            from <= i <= to <= s@.len(),
            field == s@.subrange(from as int, to as int),
            all_digits(field.subrange(0, i - from)),
            acc == digits_val(field.subrange(0, i - from)),
        decreases to - i,
    {
        let c = s.get_char(i);
        proof {
            assert(field[i - from] == c);
        }
        match char_digit_of(c) {
            None => {
                proof {
                    assert(char_digit(field[i - from]) is None);
                }
                return None;
            },
            Some(d) => {
                proof {
                    assert(field.subrange(0, i - from + 1).drop_last() == field.subrange(
                        0,
                        i - from,
                    ));
                    assert(field.subrange(0, i - from + 1).last() == c);
                }
                if acc > (u64::MAX - d as u64) / 10 {
                    proof {
                        assert(digits_val(field.subrange(0, i - from + 1)) == acc * 10 + d);
                        assert(acc * 10 + d > u64::MAX);
                        lemma_digits_val_prefix(field, i - from + 1);
                    }
                    return None;
                }
                proof {
                    assert(acc * 10 + d <= u64::MAX);
                }
                acc = acc * 10 + d as u64;
            },
        }
        i = i + 1;
    }
    proof {
        assert(field.subrange(0, to - from) =~= field);
    }
    Some(acc)
}

/// The hexadecimal digit character for one value below sixteen.
pub open spec fn hex_char(d: u8) -> char {
    if d < 10 {
        digit_char(d)
    } else if d == 10 {
        'a'
    } else if d == 11 {
        'b'
    } else if d == 12 {
        'c'
    } else if d == 13 {
        'd'
    } else if d == 14 {
        'e'
    } else {
        'f'
    }
}

/// The lowercase hexadecimal rendering of a byte sequence, two characters a
/// byte, high nibble first.
pub open spec fn hex_of(b: Seq<u8>) -> Seq<char>
    decreases b.len(),
{
    if b.len() == 0 {
        Seq::empty()
    } else {
        hex_of(b.drop_last()).push(hex_char(b.last() / 16)).push(hex_char(b.last() % 16))
    }
}

/// The hexadecimal digit character, executably.
fn hex_char_of(d: u8) -> (res: char)
    requires
        d < 16,
    ensures
        res == hex_char(d),
{
    match d {
        10 => 'a',
        11 => 'b',
        12 => 'c',
        13 => 'd',
        14 => 'e',
        15 => 'f',
        _ => digit_char_of(d),
    }
}

/// Hexadecimal rendering doubles the length.
pub proof fn lemma_hex_of_len(b: Seq<u8>)
    ensures
        hex_of(b).len() == 2 * b.len(),
    decreases b.len(),
{
    if b.len() > 0 {
        lemma_hex_of_len(b.drop_last());
    }
}

/// Distinct hexadecimal digit values render as distinct characters.
proof fn lemma_hex_char_injective(x: u8, y: u8)
    requires
        x < 16,
        y < 16,
        hex_char(x) == hex_char(y),
    ensures
        x == y,
{
}

/// Hexadecimal rendering is injective: byte sequences of equal length that
/// render alike are alike.
pub proof fn lemma_hex_of_injective(a: Seq<u8>, b: Seq<u8>)
    requires
        a.len() == b.len(),
        hex_of(a) == hex_of(b),
    ensures
        a == b,
    decreases a.len(),
{
    if a.len() > 0 {
        lemma_hex_of_len(a.drop_last());
        lemma_hex_of_len(b.drop_last());
        let ha = hex_of(a);
        let hb = hex_of(b);
        assert(ha.len() == 2 * a.len()) by {
            lemma_hex_of_len(a);
        }
        assert(ha[ha.len() - 2] == hex_char(a.last() / 16));
        assert(ha[ha.len() - 1] == hex_char(a.last() % 16));
        assert(hb[hb.len() - 2] == hex_char(b.last() / 16));
        assert(hb[hb.len() - 1] == hex_char(b.last() % 16));
        lemma_hex_char_injective(a.last() / 16, b.last() / 16);
        lemma_hex_char_injective(a.last() % 16, b.last() % 16);
        assert(a.last() == b.last());
        assert(hex_of(a.drop_last()) =~= ha.subrange(0, ha.len() - 2)) by {
            assert forall|i: int| 0 <= i < ha.len() - 2 implies hex_of(a.drop_last())[i] == ha[i]
            by {}
        }
        assert(hex_of(b.drop_last()) =~= hb.subrange(0, hb.len() - 2)) by {
            assert forall|i: int| 0 <= i < hb.len() - 2 implies hex_of(b.drop_last())[i] == hb[i]
            by {}
        }
        lemma_hex_of_injective(a.drop_last(), b.drop_last());
        assert forall|i: int| 0 <= i < a.len() implies a[i] == b[i] by {
            if i < a.len() - 1 {
                assert(a[i] == a.drop_last()[i]);
                assert(b[i] == b.drop_last()[i]);
            }
        }
        assert(a =~= b);
    } else {
        assert(a =~= b);
    }
}

/// Appends the lowercase hexadecimal rendering of a byte slice.
pub fn push_hex(out: &mut String, bytes: &[u8])
    ensures
        final(out)@ == old(out)@ + hex_of(bytes@),
{
    let n = bytes.len();
    let mut i: usize = 0;
    while i < n
        invariant
            n == bytes@.len(),
            0 <= i <= n,
            out@ == old(out)@ + hex_of(bytes@.subrange(0, i as int)),
        decreases n - i,
    {
        let b = bytes[i];
        push_char(out, hex_char_of(b / 16));
        push_char(out, hex_char_of(b % 16));
        proof {
            assert(bytes@.subrange(0, i + 1).drop_last() == bytes@.subrange(0, i as int));
            assert(bytes@.subrange(0, i + 1).last() == b);
            assert(out@ =~= old(out)@ + hex_of(bytes@.subrange(0, i + 1)));
        }
        i = i + 1;
    }
    proof {
        assert(bytes@.subrange(0, n as int) =~= bytes@);
    }
}

} // verus!
