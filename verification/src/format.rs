//! Laying text out in columns.

use crate::glyphs::{digit, digit_label};
use vstd::prelude::*;
use vstd::string::{StrSliceExecFns, StringExecFns};

verus! {

/// A text of `n` spaces.
pub open spec fn spaces(n: int) -> Seq<char> {
    Seq::new(
        if n > 0 {
            n as nat
        } else {
            0
        },
        |i: int| ' ',
    )
}

/// The text padded with spaces at its start to `width` characters. A
/// longer text stays as it is.
pub open spec fn right_aligned(text: Seq<char>, width: int) -> Seq<char> {
    spaces(width - text.len()) + text
}

/// The text padded with spaces at its end to `width` characters. A longer
/// text stays as it is.
pub open spec fn left_aligned(text: Seq<char>, width: int) -> Seq<char> {
    text + spaces(width - text.len())
}

/// The text padded with spaces on both sides to `width` characters, the
/// odd space at its end. A longer text stays as it is.
pub open spec fn centered(text: Seq<char>, width: int) -> Seq<char> {
    let missing = width - text.len();
    spaces(missing / 2) + text + spaces(missing - missing / 2)
}

/// The digits of a number that is not negative, in base ten.
pub open spec fn digits_of(n: nat) -> Seq<char>
    decreases n,
{
    if n < 10 {
        digit_label(n as int)
    } else {
        digits_of(n / 10) + digit_label((n % 10) as int)
    }
}

/// A number in base ten, with a minus sign before a negative one.
pub open spec fn decimal(v: int) -> Seq<char> {
    if v < 0 {
        seq!['-'] + digits_of((-v) as nat)
    } else {
        digits_of(v as nat)
    }
}

/// Appends `n` spaces to a text.
pub fn push_spaces(text: &mut String, n: usize)
    ensures
        final(text)@ == old(text)@ + spaces(n as int),
{
    let ghost start = text@;
    let mut i: usize = 0;
    assert(text@ =~= start + spaces(0));
    while i < n
        invariant
            i <= n,
            text@ == start + spaces(i as int),
        decreases n - i,
    {
        proof {
            reveal_strlit(" ");
        }
        text.append(" ");
        assert(text@ =~= start + spaces(i + 1));
        i = i + 1;
    }
}

/// Appends a text padded with spaces at its start to `width` characters.
pub fn push_right(out: &mut String, text: &str, width: usize)
    ensures
        final(out)@ == old(out)@ + right_aligned(text@, width as int),
{
    let ghost start = out@;
    let len = text.unicode_len();
    if len < width {
        push_spaces(out, width - len);
    } else {
        assert(out@ =~= start + spaces(width - len));
    }
    out.append(text);
    assert(out@ =~= start + right_aligned(text@, width as int));
}

/// Appends a text padded with spaces at its end to `width` characters.
pub fn push_left(out: &mut String, text: &str, width: usize)
    ensures
        final(out)@ == old(out)@ + left_aligned(text@, width as int),
{
    let ghost start = out@;
    let len = text.unicode_len();
    out.append(text);
    if len < width {
        push_spaces(out, width - len);
    } else {
        assert(out@ =~= start + text@ + spaces(width - len));
    }
    assert(out@ =~= start + left_aligned(text@, width as int));
}

/// Appends a text padded with spaces on both sides to `width` characters.
pub fn push_centered(out: &mut String, text: &str, width: usize)
    ensures
        final(out)@ == old(out)@ + centered(text@, width as int),
{
    let ghost start = out@;
    let len = text.unicode_len();
    if len < width {
        let missing = width - len;
        push_spaces(out, missing / 2);
        out.append(text);
        push_spaces(out, missing - missing / 2);
    } else {
        out.append(text);
        proof {
            let missing = width - len;
            assert(spaces(missing / 2) =~= Seq::<char>::empty());
            assert(spaces(missing - missing / 2) =~= Seq::<char>::empty());
        }
    }
    assert(out@ =~= start + centered(text@, width as int));
}

/// Appends the digits of a number.
pub fn push_digits(out: &mut String, n: u64)
    ensures
        final(out)@ == old(out)@ + digits_of(n as nat),
    decreases n,
{
    let ghost start = out@;
    if n >= 10 {
        push_digits(out, n / 10);
    }
    out.append(digit((n % 10) as usize));
    assert(out@ =~= start + digits_of(n as nat));
}

/// Returns a number in base ten.
pub fn to_decimal(v: i64) -> (text: String)
    ensures
        text@ == decimal(v as int),
{
    let mut text = String::new();
    if v < 0 {
        proof {
            reveal_strlit("-");
        }
        text.append("-");
        assert(text@ =~= seq!['-']);
        let n: u64 = if v == i64::MIN {
            0x8000_0000_0000_0000
        } else {
            (-v) as u64
        };
        push_digits(&mut text, n);
    } else {
        push_digits(&mut text, v as u64);
        assert(text@ =~= digits_of(v as nat));
    }
    text
}

/// Returns a number that is not negative in base ten.
pub fn to_digits(n: u64) -> (text: String)
    ensures
        text@ == digits_of(n as nat),
{
    let mut text = String::new();
    push_digits(&mut text, n);
    assert(text@ =~= digits_of(n as nat));
    text
}

/// A text of `n` zeros.
pub open spec fn zeros(n: int) -> Seq<char> {
    Seq::new(
        if n > 0 {
            n as nat
        } else {
            0
        },
        |i: int| '0',
    )
}

/// A number in base ten, filled with zeros between the sign and the
/// digits to `width` characters.
pub open spec fn zero_filled(v: int, width: int) -> Seq<char> {
    if v < 0 {
        seq!['-'] + zeros(width - 1 - digits_of((-v) as nat).len()) + digits_of((-v) as nat)
    } else {
        zeros(width - digits_of(v as nat).len()) + digits_of(v as nat)
    }
}

/// Appends `n` zeros to a text.
pub fn push_zeros(text: &mut String, n: usize)
    ensures
        final(text)@ == old(text)@ + zeros(n as int),
{
    let ghost start = text@;
    let mut i: usize = 0;
    assert(text@ =~= start + zeros(0));
    while i < n
        invariant
            i <= n,
            text@ == start + zeros(i as int),
        decreases n - i,
    {
        proof {
            reveal_strlit("0");
        }
        text.append("0");
        assert(text@ =~= start + zeros(i + 1));
        i = i + 1;
    }
}

/// Appends a number in base ten, filled with zeros between the sign and
/// the digits to `width` characters.
pub fn push_zero_filled(out: &mut String, v: i64, width: usize)
    ensures
        final(out)@ == old(out)@ + zero_filled(v as int, width as int),
{
    let ghost start = out@;
    let negative = v < 0;
    let n: u64 = if v == i64::MIN {
        0x8000_0000_0000_0000
    } else if negative {
        (-v) as u64
    } else {
        v as u64
    };
    let digits = to_digits(n);
    let len = digits.as_str().unicode_len();
    let mut taken: usize = len;
    if negative {
        proof {
            reveal_strlit("-");
        }
        out.append("-");
        assert(out@ =~= start + seq!['-']);
        taken = if len < usize::MAX {
            len + 1
        } else {
            len
        };
    }
    if taken < width {
        push_zeros(out, width - taken);
    } else {
        assert(zeros(width - taken) =~= Seq::<char>::empty());
        assert(out@ =~= out@ + zeros(width - taken));
    }
    out.append(digits.as_str());
    assert(out@ =~= start + zero_filled(v as int, width as int));
}

} // verus!
