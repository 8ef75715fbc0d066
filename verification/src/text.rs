//! Assembling user-facing text from verified pieces.
use vstd::prelude::*;

verus! {

/// The pieces of a list written one after another with a separator between neighbours.
pub open spec fn joined(pieces: Seq<Seq<char>>, separator: Seq<char>) -> Seq<char>
    decreases pieces.len(),
{
    if pieces.len() == 0 {
        Seq::empty()
    } else if pieces.len() == 1 {
        pieces[0]
    } else {
        joined(pieces.drop_last(), separator) + separator + pieces.last()
    }
}

/// The decimal digit naming a number below ten.
pub open spec fn digit(value: nat) -> char {
    if value == 0 {
        '0'
    } else if value == 1 {
        '1'
    } else if value == 2 {
        '2'
    } else if value == 3 {
        '3'
    } else if value == 4 {
        '4'
    } else if value == 5 {
        '5'
    } else if value == 6 {
        '6'
    } else if value == 7 {
        '7'
    } else if value == 8 {
        '8'
    } else {
        '9'
    }
}

/// The usual base-ten spelling of a natural number, with no leading zeros.
pub open spec fn decimal(value: nat) -> Seq<char>
    decreases value,
{
    if value < 10 {
        seq![digit(value)]
    } else {
        decimal(value / 10).push(digit(value % 10))
    }
}

/// Concatenate two pieces of text.
pub fn concat2(first: &str, second: &str) -> (text: String)
    ensures
        text@ == first@ + second@,
{
    let mut text = first.to_owned();
    text.append(second);
    text
}

/// Concatenate three pieces of text.
pub fn concat3(first: &str, second: &str, third: &str) -> (text: String)
    ensures
        text@ == first@ + second@ + third@,
{
    let mut text = first.to_owned();
    text.append(second);
    text.append(third);
    text
}

/// Concatenate five pieces of text.
pub fn concat5(first: &str, second: &str, third: &str, fourth: &str, fifth: &str) -> (text:
    String)
    ensures
        text@ == first@ + second@ + third@ + fourth@ + fifth@,
{
    let mut text = first.to_owned();
    text.append(second);
    text.append(third);
    text.append(fourth);
    text.append(fifth);
    text
}

/// The text of each piece of a list.
pub open spec fn texts(pieces: Seq<String>) -> Seq<Seq<char>> {
    pieces.map_values(|piece: String| piece@)
}

/// Each text placed between a prefix and a suffix.
pub open spec fn framed(pieces: Seq<Seq<char>>, prefix: Seq<char>, suffix: Seq<char>) -> Seq<
    Seq<char>,
> {
    pieces.map_values(|piece: Seq<char>| prefix + piece + suffix)
}

/// Write the pieces in order with the separator between neighbours.
pub fn join(pieces: &[String], separator: &str) -> (text: String)
    ensures
        text@ == joined(texts(pieces@), separator@),
{
    let mut text = String::new();
    let mut index: usize = 0;
    while index < pieces.len()
        invariant
            index <= pieces@.len(),
            text@ == joined(texts(pieces@).take(index as int), separator@),
        decreases pieces@.len() - index,
    {
        let ghost before = texts(pieces@).take(index as int);
        if index > 0 {
            text.append(separator);
        }
        text.append(pieces[index].as_str());
        proof {
            let after = texts(pieces@).take(index + 1);
            assert(after.drop_last() =~= before);
            assert(after.last() == pieces@[index as int]@);
            if index == 0 {
                assert(text@ =~= after[0]);
            }
        }
        index += 1;
    }
    assert(texts(pieces@).take(pieces@.len() as int) =~= texts(pieces@));
    text
}

/// Place each piece between a prefix and a suffix.
pub fn frame_each(pieces: &[String], prefix: &str, suffix: &str) -> (framed_pieces: Vec<String>)
    ensures
        texts(framed_pieces@) == framed(texts(pieces@), prefix@, suffix@),
{
    let mut framed_pieces: Vec<String> = Vec::new();
    let mut index: usize = 0;
    while index < pieces.len()
        invariant
            index <= pieces@.len(),
            texts(framed_pieces@) == framed(texts(pieces@).take(index as int), prefix@, suffix@),
        decreases pieces@.len() - index,
    {
        let ghost previous = framed_pieces@;
        let piece = concat3(prefix, pieces[index].as_str(), suffix);
        framed_pieces.push(piece);
        proof {
            let expected = framed(texts(pieces@).take(index + 1), prefix@, suffix@);
            assert(texts(previous).len() == index);
            assert forall|position: int| 0 <= position < index + 1 implies texts(
                framed_pieces@,
            )[position] == expected[position] by {
                if position < index {
                    assert(framed_pieces@[position] == previous[position]);
                    assert(texts(previous)[position] == framed(
                        texts(pieces@).take(index as int),
                        prefix@,
                        suffix@,
                    )[position]);
                }
            }
            assert(texts(framed_pieces@) =~= expected);
        }
        index += 1;
    }
    assert(texts(pieces@).take(pieces@.len() as int) =~= texts(pieces@));
    framed_pieces
}

/// The character spelling one decimal digit.
fn digit_text(value: u64) -> (text: &'static str)
    requires
        value < 10,
    ensures
        text@ == seq![digit(value as nat)],
{
    proof {
        reveal_strlit("0");
        reveal_strlit("1");
        reveal_strlit("2");
        reveal_strlit("3");
        reveal_strlit("4");
        reveal_strlit("5");
        reveal_strlit("6");
        reveal_strlit("7");
        reveal_strlit("8");
        reveal_strlit("9");
    }
    if value == 0 {
        "0"
    } else if value == 1 {
        "1"
    } else if value == 2 {
        "2"
    } else if value == 3 {
        "3"
    } else if value == 4 {
        "4"
    } else if value == 5 {
        "5"
    } else if value == 6 {
        "6"
    } else if value == 7 {
        "7"
    } else if value == 8 {
        "8"
    } else {
        "9"
    }
}

/// Spell a number in base ten.
pub fn decimal_text(value: u64) -> (text: String)
    ensures
        text@ == decimal(value as nat),
    decreases value,
{
    if value < 10 {
        digit_text(value).to_owned()
    } else {
        let mut text = decimal_text(value / 10);
        text.append(digit_text(value % 10));
        text
    }
}

} // verus!

verus! {

/// Whether a character has the Unicode `White_Space` property, which `char::is_whitespace`
/// tests.
pub open spec fn white_space(c: char) -> bool {
    ||| '\u{9}' <= c <= '\u{d}'
    ||| c == ' '
    ||| c == '\u{85}'
    ||| c == '\u{a0}'
    ||| c == '\u{1680}'
    ||| '\u{2000}' <= c <= '\u{200a}'
    ||| c == '\u{2028}'
    ||| c == '\u{2029}'
    ||| c == '\u{202f}'
    ||| c == '\u{205f}'
    ||| c == '\u{3000}'
}

/// A text without its leading whitespace.
pub open spec fn without_leading_white_space(text: Seq<char>) -> Seq<char>
    decreases text.len(),
{
    if text.len() > 0 && white_space(text[0]) {
        without_leading_white_space(text.drop_first())
    } else {
        text
    }
}

/// A text without its trailing whitespace.
pub open spec fn without_trailing_white_space(text: Seq<char>) -> Seq<char>
    decreases text.len(),
{
    if text.len() > 0 && white_space(text.last()) {
        without_trailing_white_space(text.drop_last())
    } else {
        text
    }
}

/// What `str::trim` leaves of a text: the text without leading and trailing whitespace.
pub open spec fn trimmed(text: Seq<char>) -> Seq<char> {
    without_trailing_white_space(without_leading_white_space(text))
}

/// What is left after removing leading whitespace does not start with whitespace.
proof fn leading_white_space_is_gone(text: Seq<char>)
    ensures
        without_leading_white_space(text).len() > 0 ==> !white_space(
            without_leading_white_space(text)[0],
        ),
    decreases text.len(),
{
    if text.len() > 0 && white_space(text[0]) {
        leading_white_space_is_gone(text.drop_first());
    }
}

/// Removing trailing whitespace keeps a prefix that does not end with whitespace.
proof fn trailing_white_space_is_gone(text: Seq<char>)
    ensures
        without_trailing_white_space(text).len() <= text.len(),
        without_trailing_white_space(text) == text.take(without_trailing_white_space(text).len() as int),
        without_trailing_white_space(text).len() > 0 ==> !white_space(
            without_trailing_white_space(text).last(),
        ),
    decreases text.len(),
{
    if text.len() > 0 && white_space(text.last()) {
        trailing_white_space_is_gone(text.drop_last());
        let kept = without_trailing_white_space(text.drop_last());
        assert(text.drop_last().take(kept.len() as int) =~= text.take(kept.len() as int));
    } else {
        assert(text.take(text.len() as int) =~= text);
    }
}

/// A trimmed text neither starts nor ends with whitespace.
pub proof fn trimmed_text_has_no_surrounding_white_space(text: Seq<char>)
    ensures
        trimmed(text).len() > 0 ==> !white_space(trimmed(text)[0]) && !white_space(
            trimmed(text).last(),
        ),
{
    let started = without_leading_white_space(text);
    leading_white_space_is_gone(text);
    trailing_white_space_is_gone(started);
    if trimmed(text).len() > 0 {
        assert(trimmed(text)[0] == started.take(trimmed(text).len() as int)[0]);
    }
}

/// Whether a character has the Unicode `White_Space` property.
fn is_white_space(c: char) -> (space: bool)
    ensures
        space == white_space(c),
{
    ('\u{9}' <= c && c <= '\u{d}') || c == ' ' || c == '\u{85}' || c == '\u{a0}' || c == '\u{1680}'
        || ('\u{2000}' <= c && c <= '\u{200a}') || c == '\u{2028}' || c == '\u{2029}' || c == '\u{202f}'
        || c == '\u{205f}' || c == '\u{3000}'
}

/// Remove leading and trailing whitespace, whitespace being the characters with the Unicode
/// `White_Space` property, as `str::trim` does.
pub(crate) fn trim_whitespace(text: &str) -> (remainder: &str)
    ensures
        remainder@ == trimmed(text@),
{
    let length = text.unicode_len();
    let mut start: usize = 0;
    assert(text@.subrange(0, length as int) =~= text@);
    while start < length && is_white_space(text.get_char(start))
        invariant
            length == text@.len(),
            start <= length,
            without_leading_white_space(text@) == without_leading_white_space(
                text@.subrange(start as int, length as int),
            ),
        decreases length - start,
    {
        let ghost rest = text@.subrange(start as int, length as int);
        assert(rest.drop_first() =~= text@.subrange(start + 1, length as int));
        start += 1;
    }
    let ghost started = text@.subrange(start as int, length as int);
    assert(without_leading_white_space(started) == started);
    let mut end: usize = length;
    while end > start && is_white_space(text.get_char(end - 1))
        invariant
            length == text@.len(),
            start <= end <= length,
            started == text@.subrange(start as int, length as int),
            trimmed(text@) == without_trailing_white_space(text@.subrange(start as int, end as int)),
        decreases end - start,
    {
        let ghost kept = text@.subrange(start as int, end as int);
        assert(kept.drop_last() =~= text@.subrange(start as int, end - 1));
        end -= 1;
    }
    text.substring_char(start, end)
}

/// What `{:?}` writes for a text: the text between double quotes, each character escaped as
/// `str`'s `Debug` escapes it (as `char::escape_debug` does, except that a single quote is
/// left as it is).
pub uninterp spec fn debug_quoted(text: Seq<char>) -> Seq<char>;

/// A character that `str`'s `Debug` leaves as it is: printable ASCII other than the backslash
/// and the double quote.
pub open spec fn plain_debug_char(c: char) -> bool {
    ' ' <= c <= '~' && c != '\\' && c != '"'
}

/// Write a text as `{:?}` writes it, with `<str as Debug>::fmt`.
///
/// Claimed of it: the result depends on the text alone, and a text of printable ASCII with no
/// backslash or double quote comes back between double quotes unchanged.
#[verifier::external_body]
pub(crate) fn debug_quote(text: &str) -> (quoted: String)
    ensures
        quoted@ == debug_quoted(text@),
        (forall|index: int| 0 <= index < text@.len() ==> plain_debug_char(#[trigger] text@[index]))
            ==> quoted@ == seq!['"'] + text@ + seq!['"'],
{
    format!("{:?}", text)
}

} // verus!

verus! {

/// One character as it appears inside a double-quoted string: backslash and double quote
/// are each preceded by a backslash.
pub open spec fn escaped_char(c: char) -> Seq<char> {
    if c == '\\' {
        seq!['\\', '\\']
    } else if c == '"' {
        seq!['\\', '"']
    } else {
        seq![c]
    }
}

/// A text as it appears inside a double-quoted string.
pub open spec fn escaped(text: Seq<char>) -> Seq<char>
    decreases text.len(),
{
    if text.len() == 0 {
        Seq::empty()
    } else {
        escaped(text.drop_last()) + escaped_char(text.last())
    }
}

/// Escape backslashes and double quotes so the text can stand inside double quotes.
pub fn shell_double_quoted(value: &str) -> (text: String)
    ensures
        text@ == escaped(value@),
{
    let length = value.unicode_len();
    let mut text = String::new();
    let mut index: usize = 0;
    proof {
        reveal_strlit("\\\\");
        reveal_strlit("\\\"");
    }
    while index < length
        invariant
            length == value@.len(),
            index <= length,
            text@ == escaped(value@.take(index as int)),
        decreases length - index,
    {
        let c = value.get_char(index);
        if c == '\\' {
            text.append("\\\\");
        } else if c == '"' {
            text.append("\\\"");
        } else {
            text.append(value.substring_char(index, index + 1));
        }
        proof {
            let before = value@.take(index as int);
            let after = value@.take(index + 1);
            assert(after.drop_last() =~= before);
            assert(after.last() == c);
            assert(escaped(after) == escaped(before) + escaped_char(c));
            reveal_strlit("\\\\");
            reveal_strlit("\\\"");
            assert("\\\\"@ =~= seq!['\\', '\\']);
            assert("\\\""@ =~= seq!['\\', '"']);
            if c != '\\' && c != '"' {
                assert(value@.subrange(index as int, index + 1) =~= seq![c]);
            }
        }
        index += 1;
    }
    assert(value@.take(length as int) =~= value@);
    text
}

} // verus!
