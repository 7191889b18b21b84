//! Numbers and blanks in text.

use vstd::prelude::*;
use vstd::string::StringExecFns;

verus! {

/// The character that stands for a decimal digit.
pub open spec fn digit_char(digit: int) -> char {
    (digit + '0' as int) as char
}

/// A natural number in decimal digits, without leading zeros.
pub open spec fn natural_text(number: nat) -> Seq<char>
    decreases number,
{
    if number < 10 {
        seq![digit_char(number as int)]
    } else {
        natural_text(number / 10).push(digit_char((number % 10) as int))
    }
}

/// An integer in decimal digits, with a minus sign if it is negative.
pub open spec fn integer_text(number: int) -> Seq<char> {
    if number < 0 {
        seq!['-'] + natural_text((-number) as nat)
    } else {
        natural_text(number as nat)
    }
}

/// A decimal digit as text.
fn digit(value: u64) -> (text: &'static str)
    requires
        value < 10,
    ensures
        text@ == seq![digit_char(value as int)],
{
    proof {
        reveal_strlit("0");
        reveal_strlit("1");
        reveal_strlit("2");
        reveal_strlit("3");
        reveal_strlit("4");
        reveal_strlit("5");
        reveal_strlit("6");
        reveal_strlit("7");
        reveal_strlit("8");
        reveal_strlit("9");
    }
    if value == 0 {
        "0"
    } else if value == 1 {
        "1"
    } else if value == 2 {
        "2"
    } else if value == 3 {
        "3"
    } else if value == 4 {
        "4"
    } else if value == 5 {
        "5"
    } else if value == 6 {
        "6"
    } else if value == 7 {
        "7"
    } else if value == 8 {
        "8"
    } else {
        "9"
    }
}

/// Appends a natural number in decimal digits.
fn append_natural(text: &mut String, number: u64)
    ensures
        final(text)@ == old(text)@ + natural_text(number as nat),
    decreases number,
{
    if number >= 10 {
        append_natural(text, number / 10);
    }
    text.append(digit(number % 10));
}

/// Appends an integer in decimal digits, with a minus sign if it is negative.
pub fn append_integer(text: &mut String, number: i64)
    ensures
        final(text)@ == old(text)@ + integer_text(number as int),
{
    if number < 0 {
        proof {
            reveal_strlit("-");
        }
        text.append("-");
        append_natural(text, (-(number + 1)) as u64 + 1);
    } else {
        append_natural(text, number as u64);
    }
}

/// The text of a natural number is made of decimal digits and starts with 0 only if it is 0. One
/// digit more, at the end, makes it the text of ten times the number and that digit.
pub proof fn lemma_digits_of_number(number: int)
    requires
        number >= 0,
    ensures
        integer_text(number).len() > 0,
        forall|i: int|
            0 <= i < integer_text(number).len() ==> 48 <= #[trigger] integer_text(number)[i] as u32
                <= 57,
        integer_text(number)[0] as u32 == 48 ==> number == 0,
        number < 10 ==> integer_text(number).len() == 1 && integer_text(number)[0] as u32 == 48
            + number,
        forall|digit: int|
            0 <= digit < 10 && 0 < number ==> {
                let text = #[trigger] integer_text(10 * number + digit);
                &&& text.len() == integer_text(number).len() + 1
                &&& text.drop_last() == integer_text(number)
                &&& text.last() as u32 == 48 + digit
            },
    decreases number,
{
    if number >= 10 {
        lemma_digits_of_number(number / 10);
        let front = integer_text(number / 10);
        assert(integer_text(number) == front.push(digit_char(number % 10)));
        assert(integer_text(number)[0] == front[0]);
        assert forall|i: int| 0 <= i < integer_text(number).len() implies 48
            <= #[trigger] integer_text(number)[i] as u32 <= 57 by {
            if i < front.len() {
                assert(integer_text(number)[i] == front[i]);
            }
        }
    }
    assert forall|digit: int| 0 <= digit < 10 && 0 < number implies ({
        let text = #[trigger] integer_text(10 * number + digit);
        &&& text.len() == integer_text(number).len() + 1
        &&& text.drop_last() == integer_text(number)
        &&& text.last() as u32 == 48 + digit
    }) by {
        let text = integer_text(10 * number + digit);
        assert((10 * number + digit) / 10 == number);
        assert((10 * number + digit) % 10 == digit);
        assert(text == integer_text(number).push(digit_char(digit)));
        assert(text.drop_last() =~= integer_text(number));
    }
}

/// The text of a number reads back as the number: read from the first digit, the most significant,
/// to the last, its digits are worth the number. A number below zero is written as a minus sign and
/// the number without its sign.
pub proof fn lemma_number_reads_back(number: int)
    ensures
        number >= 0 ==> integer_text(number).fold_left(
            0int,
            |value: int, digit: char| 10 * value + (digit as u32 - 48),
        ) == number,
        number < 0 ==> integer_text(number).len() == integer_text(-number).len() + 1
            && integer_text(number)[0] == '-' && integer_text(number).drop_first()
            == integer_text(-number),
    decreases
            if number < 0 {
                -number
            } else {
                number
            },
{
    let read = |value: int, digit: char| 10 * value + (digit as u32 - 48);
    let text = integer_text(number);
    if number < 0 {
        assert(text.drop_first() =~= integer_text(-number));
    } else {
        reveal_with_fuel(Seq::fold_left, 2);
        lemma_digits_of_number(number);
        if number >= 10 {
            lemma_number_reads_back(number / 10);
            lemma_digits_of_number(number / 10);
            assert(number == 10 * (number / 10) + number % 10);
            assert(text.drop_last() == integer_text(number / 10));
            assert(text.fold_left(0int, read) == read(
                text.drop_last().fold_left(0int, read),
                text.last(),
            ));
        } else {
            assert(text.drop_last() =~= Seq::empty());
            assert(text.fold_left(0int, read) == number);
        }
    }
}

/// White space is, of the ASCII characters, the space and the five controls from the tab to the
/// carriage return. Of the others it is the next line, the no-break space, the Ogham space mark,
/// the spaces of General Punctuation, its two separators, and the ideographic space.
pub proof fn lemma_white_space(c: char)
    ensures
        is_white_space(c) <==> seq![
            '\t',
            '\n',
            '\u{b}',
            '\u{c}',
            '\r',
            ' ',
            '\u{85}',
            '\u{a0}',
            '\u{1680}',
            '\u{2000}',
            '\u{2001}',
            '\u{2002}',
            '\u{2003}',
            '\u{2004}',
            '\u{2005}',
            '\u{2006}',
            '\u{2007}',
            '\u{2008}',
            '\u{2009}',
            '\u{200a}',
            '\u{2028}',
            '\u{2029}',
            '\u{202f}',
            '\u{205f}',
            '\u{3000}',
        ].contains(c),
{
    let spaces = seq![
        '\t',
        '\n',
        '\u{b}',
        '\u{c}',
        '\r',
        ' ',
        '\u{85}',
        '\u{a0}',
        '\u{1680}',
        '\u{2000}',
        '\u{2001}',
        '\u{2002}',
        '\u{2003}',
        '\u{2004}',
        '\u{2005}',
        '\u{2006}',
        '\u{2007}',
        '\u{2008}',
        '\u{2009}',
        '\u{200a}',
        '\u{2028}',
        '\u{2029}',
        '\u{202f}',
        '\u{205f}',
        '\u{3000}',
    ];
    if is_white_space(c) {
        let code = c as int;
        let place = if code <= 0xD {
            code - 9
        } else if code == 0x20 {
            5
        } else if code == 0x85 {
            6
        } else if code == 0xA0 {
            7
        } else if code == 0x1680 {
            8
        } else if code <= 0x200A {
            code - 0x2000 + 9
        } else if code == 0x2028 {
            20
        } else if code == 0x2029 {
            21
        } else if code == 0x202F {
            22
        } else if code == 0x205F {
            23
        } else {
            24
        };
        assert(spaces[place] == c);
    }
}

/// The character has the Unicode property White_Space.
pub open spec fn is_white_space(c: char) -> bool {
    let code = c as u32;
    ||| 0x9 <= code <= 0xD
    ||| code == 0x20
    ||| code == 0x85
    ||| code == 0xA0
    ||| code == 0x1680
    ||| 0x2000 <= code <= 0x200A
    ||| code == 0x2028
    ||| code == 0x2029
    ||| code == 0x202F
    ||| code == 0x205F
    ||| code == 0x3000
}

/// The text holds nothing but white space.
pub open spec fn is_blank(text: Seq<char>) -> bool {
    forall|i: int| 0 <= i < text.len() ==> is_white_space(#[trigger] text[i])
}

/// `trimmed` is what is left of `text` when the white space at both ends is taken away.
pub open spec fn is_trimmed(text: Seq<char>, trimmed: Seq<char>) -> bool {
    exists|start: int, end: int|
        {
            &&& 0 <= start <= end <= text.len()
            &&& trimmed == #[trigger] text.subrange(start, end)
            &&& is_blank(text.take(start))
            &&& is_blank(text.skip(end))
            &&& trimmed.len() > 0 ==> !is_white_space(trimmed.first()) && !is_white_space(
                trimmed.last(),
            )
        }
}

/// `str::trim` of the standard library: the text without the characters of the Unicode property
/// White_Space at its ends.
#[verifier::external_body]
pub(crate) fn std_trim(text: &str) -> (trimmed: &str)
    ensures
        is_trimmed(text@, trimmed@),
{
    text.trim()
}

/// Trimming leaves nothing of a blank text, and something of any other.
pub(crate) proof fn lemma_trimmed_is_empty(text: Seq<char>, trimmed: Seq<char>)
    requires
        is_trimmed(text, trimmed),
    ensures
        trimmed.len() == 0 <==> is_blank(text),
{
    let (start, end) = choose|start: int, end: int|
        {
            &&& 0 <= start <= end <= text.len()
            &&& trimmed == #[trigger] text.subrange(start, end)
            &&& is_blank(text.take(start))
            &&& is_blank(text.skip(end))
            &&& trimmed.len() > 0 ==> !is_white_space(trimmed.first()) && !is_white_space(
                trimmed.last(),
            )
        };
    if trimmed.len() == 0 {
        assert forall|i: int| 0 <= i < text.len() implies is_white_space(#[trigger] text[i]) by {
            if i < start {
                assert(text.take(start)[i] == text[i]);
            } else {
                assert(text.skip(end)[i - end] == text[i]);
            }
        }
    } else {
        assert(text[start] == trimmed.first());
    }
}

} // verus!
