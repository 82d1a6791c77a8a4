//! Text that was read off the screen: trimming and numbers.

use vstd::prelude::*;
use vstd::string::StrSliceExecFns;

verus! {

/// Tells whether two strings hold the same characters, by `==` of `str`.
#[verifier::external_body]
pub(crate) fn str_eq(a: &str, b: &str) -> (eq: bool)
    ensures
        eq == (a@ == b@),
{
    a == b
}

/// The text in lower case, as `str::to_lowercase` gives it.
pub uninterp spec fn lowercase(text: Seq<char>) -> Seq<char>;

/// Calls `str::to_lowercase`. What the lower case of a text is, is named,
/// not stated.
#[verifier::external_body]
pub(crate) fn to_lowercase(text: &str) -> (lower: String)
    ensures
        lower@ == lowercase(text@),
{
    text.to_lowercase()
}

/// Calls `String::push`, which appends a character to a text.
#[verifier::external_body]
pub(crate) fn push_char(text: &mut String, c: char)
    ensures
        final(text)@ == old(text)@.push(c),
{
    text.push(c)
}

/// Whether a character is white space.
pub open spec fn is_space(c: char) -> bool {
    let code = c as u32;
    ||| 0x09 <= code <= 0x0D
    ||| code == 0x20
    ||| code == 0x85
    ||| code == 0xA0
    ||| code == 0x1680
    ||| 0x2000 <= code <= 0x200A
    ||| code == 0x2028
    ||| code == 0x2029
    ||| code == 0x202F
    ||| code == 0x205F
    ||| code == 0x3000
}

/// The number of white-space characters at the start of a text.
pub open spec fn leading_spaces(text: Seq<char>) -> nat
    decreases text.len(),
{
    if text.len() > 0 && is_space(text[0]) {
        1 + leading_spaces(text.skip(1))
    } else {
        0
    }
}

/// The number of white-space characters at the end of a text.
pub open spec fn trailing_spaces(text: Seq<char>) -> nat
    decreases text.len(),
{
    if text.len() > 0 && is_space(text.last()) {
        1 + trailing_spaces(text.drop_last())
    } else {
        0
    }
}

/// The text without the white space at its start and at its end.
pub open spec fn trimmed(text: Seq<char>) -> Seq<char> {
    let start = leading_spaces(text);
    let rest = text.skip(start as int);
    rest.take(rest.len() - trailing_spaces(rest))
}

/// Whether a character is one of the digits 0 to 9.
pub open spec fn is_digit(c: char) -> bool {
    '0' <= c <= '9'
}

/// Whether a text is made of digits only.
pub open spec fn all_digits(text: Seq<char>) -> bool {
    forall|i: int| 0 <= i < text.len() ==> is_digit(#[trigger] text[i])
}

/// The number that a digit stands for.
pub open spec fn digit_value(c: char) -> int {
    c as u32 - '0' as u32
}

/// The number that a text of digits stands for in base ten.
pub open spec fn decimal_value(digits: Seq<char>) -> int
    decreases digits.len(),
{
    if digits.len() == 0 {
        0
    } else {
        decimal_value(digits.drop_last()) * 10 + digit_value(digits.last())
    }
}

/// The digits of a number text: the text without its sign.
pub open spec fn unsigned_part(text: Seq<char>) -> Seq<char> {
    if text.len() > 0 && (text[0] == '-' || text[0] == '+') {
        text.skip(1)
    } else {
        text
    }
}

/// The number that a text stands for: an optional sign and at least one
/// digit, nothing else, and a value that fits 32 bits with a sign.
pub open spec fn parsed_number(text: Seq<char>) -> Option<int> {
    let digits = unsigned_part(text);
    let value = if text.len() > 0 && text[0] == '-' {
        -decimal_value(digits)
    } else {
        decimal_value(digits)
    };
    if digits.len() > 0 && all_digits(digits) && i32::MIN <= value <= i32::MAX {
        Some(value)
    } else {
        None
    }
}

/// Tests whether a character is white space.
pub fn is_whitespace(c: char) -> (b: bool)
    ensures
        b == is_space(c),
{
    let code = c as u32;
    (0x09 <= code && code <= 0x0D) || code == 0x20 || code == 0x85 || code == 0xA0 || code
        == 0x1680 || (0x2000 <= code && code <= 0x200A) || code == 0x2028 || code == 0x2029
        || code == 0x202F || code == 0x205F || code == 0x3000
}

/// The leading white space of a text ends where its first other character
/// stands.
proof fn lemma_leading_spaces(text: Seq<char>, n: nat)
    requires
        n <= text.len(),
        forall|i: int| 0 <= i < n ==> is_space(#[trigger] text[i]),
        n == text.len() || !is_space(text[n as int]),
    ensures
        leading_spaces(text) == n,
    decreases n,
{
    if n > 0 {
        let rest = text.skip(1);
        assert forall|i: int| 0 <= i < n - 1 implies is_space(#[trigger] rest[i]) by {
            assert(rest[i] == text[i + 1]);
        }
        lemma_leading_spaces(rest, (n - 1) as nat);
    }
}

/// The trailing white space of a text begins after its last other
/// character.
proof fn lemma_trailing_spaces(text: Seq<char>, n: nat)
    requires
        n <= text.len(),
        forall|i: int| text.len() - n <= i < text.len() ==> is_space(#[trigger] text[i]),
        n == text.len() || !is_space(text[text.len() - n - 1]),
    ensures
        trailing_spaces(text) == n,
    decreases n,
{
    if n > 0 {
        let rest = text.drop_last();
        assert forall|i: int| rest.len() - (n - 1) <= i < rest.len() implies is_space(
            #[trigger] rest[i],
        ) by {
            assert(rest[i] == text[i]);
        }
        lemma_trailing_spaces(rest, (n - 1) as nat);
    }
}

/// Returns the text without the white space at its start and at its end.
pub fn trim(text: &str) -> (res: &str)
    ensures
        res@ == trimmed(text@),
{
    let len = text.unicode_len();
    let mut start: usize = 0;
    while start < len && is_whitespace(text.get_char(start))
        invariant
            start <= len,
            len == text@.len(),
            forall|i: int| 0 <= i < start ==> is_space(#[trigger] text@[i]),
        decreases len - start,
    {
        start = start + 1;
    }
    let mut end: usize = len;
    while end > start && is_whitespace(text.get_char(end - 1))
        invariant
            start <= end <= len,
            len == text@.len(),
            forall|i: int| end <= i < len ==> is_space(#[trigger] text@[i]),
        decreases end,
    {
        end = end - 1;
    }
    proof {
        lemma_leading_spaces(text@, start as nat);
        let rest = text@.skip(start as int);
        assert forall|i: int| rest.len() - (len - end) <= i < rest.len() implies is_space(
            #[trigger] rest[i],
        ) by {
            assert(rest[i] == text@[i + start]);
        }
        lemma_trailing_spaces(rest, (len - end) as nat);
        assert(rest.take(rest.len() - (len - end)) =~= text@.subrange(start as int, end as int));
    }
    text.substring_char(start, end)
}

/// Reads a number: an optional sign and at least one digit, nothing else.
/// There is none where the text is anything else, or where the value does
/// not fit `i32`.
pub fn parse_i32(text: &str) -> (res: Option<i32>)
    ensures
        match res {
            Some(v) => parsed_number(text@) == Some(v as int),
            None => parsed_number(text@) is None,
        },
{
    let len = text.unicode_len();
    if len == 0 {
        return None;
    }
    let first = text.get_char(0);
    let negative = first == '-';
    let start: usize = if first == '-' || first == '+' {
        1
    } else {
        0
    };
    let ghost digits = unsigned_part(text@);
    if start == len {
        return None;
    }
    // The value so far, negated where the text has a minus sign.
    let mut value: i64 = 0;
    let mut i: usize = start;
    assert(digits.take(0) =~= Seq::<char>::empty());
    while i < len
        invariant
            start <= i <= len,
            len == text@.len(),
            text@.len() > 0,
            negative == (text@[0] == '-'),
            digits == unsigned_part(text@),
            digits == text@.skip(start as int),
            all_digits(digits.take(i - start)),
            value == if negative {
                -decimal_value(digits.take(i - start))
            } else {
                decimal_value(digits.take(i - start))
            },
            i32::MIN <= value <= i32::MAX,
            0 <= decimal_value(digits.take(i - start)),
        decreases len - i,
    {
        let c = text.get_char(i);
        let ghost k = i - start;
        assert(digits[k] == c);
        assert(digits.take(k + 1).drop_last() =~= digits.take(k));
        assert(digits.take(k + 1).last() == c);
        if !('0' <= c && c <= '9') {
            proof {
                assert(!is_digit(digits[k]));
            }
            return None;
        }
        assert(all_digits(digits.take(k + 1))) by {
            assert forall|j: int| 0 <= j < k + 1 implies is_digit(
                #[trigger] digits.take(k + 1)[j],
            ) by {
                if j < k {
                    assert(digits.take(k + 1)[j] == digits.take(k)[j]);
                }
            }
        }
        let d: i64 = (c as u32 - '0' as u32) as i64;
        value = if negative {
            value * 10 - d
        } else {
            value * 10 + d
        };
        if value < i32::MIN as i64 || value > i32::MAX as i64 {
            proof {
                lemma_decimal_grows(digits, (k + 1) as nat);
            }
            return None;
        }
        i = i + 1;
    }
    assert(digits.take(len - start) =~= digits);
    Some(value as i32)
}

/// The value of the first digits of a text of digits is never above the
/// value of the whole text.
proof fn lemma_decimal_grows(digits: Seq<char>, n: nat)
    requires
        n <= digits.len(),
        all_digits(digits.take(n as int)),
    ensures
        all_digits(digits) ==> 0 <= decimal_value(digits.take(n as int)) <= decimal_value(digits),
    decreases digits.len() - n,
{
    lemma_decimal_nonnegative(digits.take(n as int));
    if n == digits.len() {
        assert(digits.take(n as int) =~= digits);
    } else if all_digits(digits) {
        let next = digits.take(n as int + 1);
        assert(next.drop_last() =~= digits.take(n as int));
        assert forall|j: int| 0 <= j < next.len() implies is_digit(#[trigger] next[j]) by {
            assert(next[j] == digits[j]);
        }
        lemma_decimal_grows(digits, n + 1);
        assert(is_digit(next.last()));
    }
}

/// The value of a text of digits is not negative.
proof fn lemma_decimal_nonnegative(digits: Seq<char>)
    requires
        all_digits(digits),
    ensures
        0 <= decimal_value(digits),
    decreases digits.len(),
{
    if digits.len() > 0 {
        let rest = digits.drop_last();
        assert forall|j: int| 0 <= j < rest.len() implies is_digit(#[trigger] rest[j]) by {
            assert(rest[j] == digits[j]);
        }
        lemma_decimal_nonnegative(rest);
        assert(is_digit(digits.last()));
    }
}

/// The number of characters before the first line feed of a text, or the
/// length of a text without a line feed.
pub open spec fn line_length(text: Seq<char>) -> int
    decreases text.len(),
{
    if text.len() == 0 || text[0] == '\n' {
        0
    } else {
        1 + line_length(text.skip(1))
    }
}

/// A line without the carriage return that may stand before its line feed.
pub open spec fn without_return(line: Seq<char>) -> Seq<char> {
    if line.len() > 0 && line.last() == '\r' {
        line.drop_last()
    } else {
        line
    }
}

/// The lines of a text. A line ends with a line feed, before which a
/// carriage return may stand; neither belongs to the line. What follows
/// the last line feed is a line too, unless it is empty.
pub open spec fn lines_of(text: Seq<char>) -> Seq<Seq<char>>
    decreases text.len(),
{
    if text.len() == 0 {
        Seq::empty()
    } else {
        let n = line_length(text);
        if 0 <= n < text.len() {
            seq![without_return(text.take(n))] + lines_of(text.skip(n + 1))
        } else {
            seq![text]
        }
    }
}

/// A line is as long as the text before the first line feed.
proof fn lemma_line_length(text: Seq<char>, n: int)
    requires
        0 <= n <= text.len(),
        forall|j: int| 0 <= j < n ==> text[j] != '\n',
        n == text.len() || text[n] == '\n',
    ensures
        line_length(text) == n,
    decreases n,
{
    if n > 0 {
        let rest = text.skip(1);
        assert forall|j: int| 0 <= j < n - 1 implies rest[j] != '\n' by {
            assert(rest[j] == text[j + 1]);
        }
        lemma_line_length(rest, n - 1);
    }
}

/// The texts of a list as characters.
pub open spec fn strings_view(texts: Seq<String>) -> Seq<Seq<char>> {
    texts.map_values(|t: String| t@)
}

/// Returns the lines of a text, without their line ends.
pub fn lines(text: &str) -> (out: Vec<String>)
    ensures
        strings_view(out@) == lines_of(text@),
{
    let len = text.unicode_len();
    let mut out: Vec<String> = Vec::new();
    let mut start: usize = 0;
    assert(text@.skip(0) =~= text@);
    assert(strings_view(out@) =~= Seq::<Seq<char>>::empty());
    while start < len
        invariant
            start <= len,
            len == text@.len(),
            lines_of(text@) == strings_view(out@) + lines_of(text@.skip(start as int)),
        decreases len - start,
    {
        let ghost rest = text@.skip(start as int);
        let mut end: usize = start;
        while end < len && text.get_char(end) != '\n'
            invariant
                start <= end <= len,
                len == text@.len(),
                forall|j: int| start <= j < end ==> text@[j] != '\n',
            decreases len - end,
        {
            end = end + 1;
        }
        proof {
            assert forall|j: int| 0 <= j < end - start implies rest[j] != '\n' by {
                assert(rest[j] == text@[j + start]);
            }
            lemma_line_length(rest, end - start);
        }
        let ghost before = strings_view(out@);
        if end == len {
            let line = text.substring_char(start, len);
            assert(line@ =~= rest);
            out.push(line.to_owned());
            proof {
                assert(strings_view(out@) =~= before.push(rest));
                assert(text@.skip(len as int) =~= Seq::<char>::empty());
                assert(lines_of(rest) =~= seq![rest]);
                assert(lines_of(text@) =~= strings_view(out@) + lines_of(text@.skip(len as int)));
            }
            start = len;
        } else {
            let stop = if end > start && text.get_char(end - 1) == '\r' {
                end - 1
            } else {
                end
            };
            let line = text.substring_char(start, stop);
            proof {
                assert(rest.take(end - start) =~= text@.subrange(start as int, end as int));
                assert(line@ =~= without_return(rest.take(end - start)));
                assert(rest.skip(end - start + 1) =~= text@.skip(end + 1));
            }
            out.push(line.to_owned());
            proof {
                assert(strings_view(out@) =~= before.push(line@));
                assert(lines_of(text@) =~= strings_view(out@) + lines_of(text@.skip(end + 1)));
            }
            start = end + 1;
        }
    }
    proof {
        assert(text@.skip(start as int) =~= Seq::<char>::empty());
    }
    out
}

} // verus!
