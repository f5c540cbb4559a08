//! Text that the engine writes and reads: whole numbers in decimal, runs of
//! spaces, and texts cut at a separator.

use vstd::prelude::*;
use vstd::string::StrSliceExecFns;
use vstd::string::StringExecFns;

verus! {

/// The character of a decimal digit.
pub open spec fn digit(d: int) -> char
    recommends
        0 <= d < 10,
{
    if d <= 0 {
        '0'
    } else if d == 1 {
        '1'
    } else if d == 2 {
        '2'
    } else if d == 3 {
        '3'
    } else if d == 4 {
        '4'
    } else if d == 5 {
        '5'
    } else if d == 6 {
        '6'
    } else if d == 7 {
        '7'
    } else if d == 8 {
        '8'
    } else {
        '9'
    }
}

/// The decimal digits of a natural number, without leading zeros.
pub open spec fn natural_digits(n: int) -> Seq<char>
    decreases n,
{
    if n < 10 {
        seq![digit(n)]
    } else {
        natural_digits(n / 10).push(digit(n % 10))
    }
}

/// A whole number in decimal, with a minus sign where it is negative.
pub open spec fn decimal(value: int) -> Seq<char> {
    if value < 0 {
        seq!['-'] + natural_digits(-value)
    } else {
        natural_digits(value)
    }
}

/// A run of `n` spaces.
pub open spec fn spaces(n: int) -> Seq<char> {
    Seq::new(
        if n < 0 {
            0
        } else {
            n as nat
        },
        |i: int| ' ',
    )
}

fn digit_text(d: u64) -> (text: &'static str)
    requires
        d < 10,
    ensures
        text@ == seq![digit(d as int)],
{
    proof {
        reveal_strlit("0");
        reveal_strlit("1");
        reveal_strlit("2");
        reveal_strlit("3");
        reveal_strlit("4");
        reveal_strlit("5");
        reveal_strlit("6");
        reveal_strlit("7");
        reveal_strlit("8");
        reveal_strlit("9");
    }
    let text = if d == 0 {
        "0"
    } else if d == 1 {
        "1"
    } else if d == 2 {
        "2"
    } else if d == 3 {
        "3"
    } else if d == 4 {
        "4"
    } else if d == 5 {
        "5"
    } else if d == 6 {
        "6"
    } else if d == 7 {
        "7"
    } else if d == 8 {
        "8"
    } else {
        "9"
    };
    assert(text@ =~= seq![digit(d as int)]);
    text
}

fn natural_string(n: u64) -> (text: String)
    ensures
        text@ == natural_digits(n as int),
    decreases n,
{
    if n < 10 {
        String::from_str(digit_text(n))
    } else {
        let mut text = natural_string(n / 10);
        text.append(digit_text(n % 10));
        assert(text@ =~= natural_digits(n as int));
        text
    }
}

/// Writes a whole number in decimal.
pub fn decimal_string(value: i64) -> (text: String)
    ensures
        text@ == decimal(value as int),
{
    if value < 0 {
        let magnitude: u64 = (-(value as i128)) as u64;
        proof {
            reveal_strlit("-");
        }
        let mut text = String::from_str("-");
        text.append(natural_string(magnitude).as_str());
        assert(text@ =~= decimal(value as int));
        text
    } else {
        natural_string(value as u64)
    }
}

/// Appends `n` spaces to `text`.
pub fn pad(text: &mut String, n: usize)
    ensures
        final(text)@ == old(text)@ + spaces(n as int),
{
    let mut i: usize = 0;
    assert(text@ =~= old(text)@ + spaces(0));
    while i < n
        invariant
            i <= n,
            text@ == old(text)@ + spaces(i as int),
        decreases n - i,
    {
        proof {
            reveal_strlit(" ");
        }
        text.append(" ");
        i = i + 1;
        assert(text@ =~= old(text)@ + spaces(i as int));
    }
}

/// The segments into which a separator cuts the first `upto` characters of
/// a text. There is always at least one; an empty text has one empty
/// segment.
pub open spec fn split_prefix(text: Seq<char>, separator: char, upto: int) -> Seq<Seq<char>>
    decreases upto,
{
    if upto <= 0 {
        seq![Seq::empty()]
    } else {
        let before = split_prefix(text, separator, upto - 1);
        if text[upto - 1] == separator {
            before.push(Seq::empty())
        } else {
            before.update(before.len() - 1, before.last().push(text[upto - 1]))
        }
    }
}

/// The segments into which a separator cuts a text.
pub open spec fn split(text: Seq<char>, separator: char) -> Seq<Seq<char>> {
    split_prefix(text, separator, text.len() as int)
}

/// The texts of a list of strings.
pub open spec fn texts(strings: Seq<String>) -> Seq<Seq<char>> {
    Seq::new(strings.len(), |i: int| strings[i]@)
}

/// Cuts a text at every occurrence of a separator.
pub fn split_text(text: &str, separator: char) -> (segments: Vec<String>)
    ensures
        texts(segments@) == split(text@, separator),
        segments@.len() >= 1,
{
    let length = text.unicode_len();
    let mut segments: Vec<String> = Vec::new();
    let mut start: usize = 0;
    let mut i: usize = 0;
    assert(texts(segments@).push(text@.subrange(0, 0)) =~~= split_prefix(text@, separator, 0));
    while i < length
        invariant
            start <= i <= length,
            length == text@.len(),
            texts(segments@).push(text@.subrange(start as int, i as int)) == split_prefix(
                text@,
                separator,
                i as int,
            ),
        decreases length - i,
    {
        let ghost before = texts(segments@);
        let ghost current = text@.subrange(start as int, i as int);
        if text.get_char(i) == separator {
            segments.push(String::from_str(text.substring_char(start, i)));
            start = i + 1;
            assert(texts(segments@).push(text@.subrange(start as int, i + 1)) =~~= before.push(
                current,
            ).push(Seq::empty()));
        } else {
            assert(texts(segments@).push(text@.subrange(start as int, i + 1)) =~~= before.push(
                current,
            ).update(before.len() as int, current.push(text@[i as int])));
        }
        i = i + 1;
    }
    let ghost before = texts(segments@);
    segments.push(String::from_str(text.substring_char(start, length)));
    assert(texts(segments@) =~~= before.push(text@.subrange(start as int, length as int)));
    segments
}

/// A text is cut into one segment more than it has separators, and a text
/// that ends in the separator has an empty last segment.
pub proof fn lemma_split_prefix(text: Seq<char>, separator: char, upto: int)
    requires
        0 <= upto <= text.len(),
    ensures
        split_prefix(text, separator, upto).len() >= 1,
        upto > 0 && text[upto - 1] == separator ==> split_prefix(text, separator, upto).last().len()
            == 0,
        forall|i: int, j: int|
            0 <= i < split_prefix(text, separator, upto).len() && 0 <= j < (#[trigger] split_prefix(
                text,
                separator,
                upto,
            )[i]).len() ==> #[trigger] split_prefix(text, separator, upto)[i][j] != separator,
    decreases upto,
{
    if upto > 0 {
        lemma_split_prefix(text, separator, upto - 1);
    }
}

} // verus!
