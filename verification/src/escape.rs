//! Writing a text inside a JSON string.
//!
//! Between the quotes of a JSON string a double quote and a backslash are
//! written with a backslash before them, and a control character as `\u00`
//! with its two hexadecimal digits. Every other character is written as it
//! is. What is written so is read back as the text, whatever the text holds.

use crate::payload::digit;
use vstd::prelude::*;
use vstd::string::*;

verus! {

/// The character of a hexadecimal digit, in lower case.
pub open spec fn hex_digit(d: int) -> char {
    if d < 10 {
        digit(d)
    } else if d == 10 {
        'a'
    } else if d == 11 {
        'b'
    } else if d == 12 {
        'c'
    } else if d == 13 {
        'd'
    } else if d == 14 {
        'e'
    } else {
        'f'
    }
}

/// Whether a character stands for itself inside a JSON string: it is no
/// double quote, no backslash and no control character.
pub open spec fn is_plain(c: char) -> bool {
    c != '"' && c != '\\' && c as u32 >= 0x20
}

/// How a character is written inside a JSON string: a double quote and a
/// backslash get a backslash before them, a control character is written as
/// `\u00` and its two hexadecimal digits, any other character is itself.
pub open spec fn escaped_char(c: char) -> Seq<char> {
    if c == '"' {
        seq!['\\', '"']
    } else if c == '\\' {
        seq!['\\', '\\']
    } else if (c as u32) < 0x20 {
        seq!['\\', 'u', '0', '0', hex_digit((c as u32 / 16) as int), hex_digit((c as u32 % 16) as int)]
    } else {
        seq![c]
    }
}

/// A text as it is written inside a JSON string, between the quotes.
pub open spec fn json_escaped(text: Seq<char>) -> Seq<char>
    decreases text.len(),
{
    if text.len() == 0 {
        Seq::empty()
    } else {
        json_escaped(text.drop_last()) + escaped_char(text.last())
    }
}

fn hex_text(d: u32) -> (text: &'static str)
    requires
        d < 16,
    ensures
        text@ == seq![hex_digit(d as int)],
{
    proof {
        reveal_strlit("0");
        reveal_strlit("1");
        reveal_strlit("2");
        reveal_strlit("3");
        reveal_strlit("4");
        reveal_strlit("5");
        reveal_strlit("6");
        reveal_strlit("7");
        reveal_strlit("8");
        reveal_strlit("9");
        reveal_strlit("a");
        reveal_strlit("b");
        reveal_strlit("c");
        reveal_strlit("d");
        reveal_strlit("e");
        reveal_strlit("f");
    }
    let text = if d == 0 {
        "0"
    } else if d == 1 {
        "1"
    } else if d == 2 {
        "2"
    } else if d == 3 {
        "3"
    } else if d == 4 {
        "4"
    } else if d == 5 {
        "5"
    } else if d == 6 {
        "6"
    } else if d == 7 {
        "7"
    } else if d == 8 {
        "8"
    } else if d == 9 {
        "9"
    } else if d == 10 {
        "a"
    } else if d == 11 {
        "b"
    } else if d == 12 {
        "c"
    } else if d == 13 {
        "d"
    } else if d == 14 {
        "e"
    } else {
        "f"
    };
    assert(text@ =~= seq![hex_digit(d as int)]);
    text
}

/// Writes a text as it stands inside a JSON string, between the quotes.
pub fn escape_json(text: &str) -> (escaped: String)
    ensures
        escaped@ == json_escaped(text@),
{
    let n = text.unicode_len();
    let mut escaped = String::new();
    let mut i: usize = 0;
    assert(text@.take(0) =~= Seq::<char>::empty());
    while i < n
        invariant
            i <= n,
            n == text@.len(),
            escaped@ == json_escaped(text@.take(i as int)),
        decreases n - i,
    {
        let c = text.get_char(i);
        proof {
            assert(text@.take(i + 1).drop_last() =~= text@.take(i as int));
            assert(text@.take(i + 1).last() == c);
        }
        let ghost before = escaped@;
        if c == '"' {
            proof {
                reveal_strlit("\\\"");
            }
            escaped.append("\\\"");
            assert(escaped@ =~= before + escaped_char(c));
        } else if c == '\\' {
            proof {
                reveal_strlit("\\\\");
            }
            escaped.append("\\\\");
            assert(escaped@ =~= before + escaped_char(c));
        } else if (c as u32) < 0x20 {
            proof {
                reveal_strlit("\\u00");
            }
            escaped.append("\\u00");
            escaped.append(hex_text(c as u32 / 16));
            escaped.append(hex_text(c as u32 % 16));
            assert(escaped@ =~= before + escaped_char(c));
        } else {
            escaped.append(text.substring_char(i, i + 1));
            assert(text@.subrange(i as int, i + 1) =~= seq![c]);
            assert(escaped@ =~= before + escaped_char(c));
        }
        i += 1;
    }
    assert(text@.take(i as int) =~= text@);
    escaped
}

/// The value of a hexadecimal digit in lower case, or -1 for any other
/// character.
pub open spec fn hex_value(c: char) -> int {
    if c == '0' {
        0
    } else if c == '1' {
        1
    } else if c == '2' {
        2
    } else if c == '3' {
        3
    } else if c == '4' {
        4
    } else if c == '5' {
        5
    } else if c == '6' {
        6
    } else if c == '7' {
        7
    } else if c == '8' {
        8
    } else if c == '9' {
        9
    } else if c == 'a' {
        10
    } else if c == 'b' {
        11
    } else if c == 'c' {
        12
    } else if c == 'd' {
        13
    } else if c == 'e' {
        14
    } else if c == 'f' {
        15
    } else {
        -1
    }
}

/// How many characters the first character of a JSON string takes as it is
/// written, or 0 where the text does not begin with a character written as
/// `json_escaped` writes one.
pub open spec fn first_width(text: Seq<char>) -> int {
    if text.len() >= 1 && is_plain(text[0]) {
        1
    } else if text.len() >= 2 && text[0] == '\\' && (text[1] == '"' || text[1] == '\\') {
        2
    } else if text.len() >= 6 && text[0] == '\\' && text[1] == 'u' && text[2] == '0' && text[3]
        == '0' && 0 <= hex_value(text[4]) && 0 <= hex_value(text[5]) && 16 * hex_value(text[4])
        + hex_value(text[5]) < 0x20 {
        6
    } else {
        0
    }
}

/// The character that a text begins with, as a reader of JSON strings takes
/// it: a plain character is itself, a backslash with a double quote or a
/// backslash is that character, and `\u00` with two digits is the control
/// character of that number.
pub open spec fn first_char(text: Seq<char>) -> char {
    if first_width(text) == 1 {
        text[0]
    } else if first_width(text) == 2 {
        text[1]
    } else {
        ((16 * hex_value(text[4]) + hex_value(text[5])) as u32) as char
    }
}

/// The text that a reader of JSON strings takes from what stands between the
/// quotes, or `None` where that is not written as `json_escaped` writes: where
/// it holds a bare double quote, backslash or control character, or an escape
/// of another form.
pub open spec fn json_unescaped(text: Seq<char>) -> Option<Seq<char>>
    decreases text.len(),
{
    if text.len() == 0 {
        Some(Seq::empty())
    } else if first_width(text) == 0 {
        None
    } else {
        match json_unescaped(text.skip(first_width(text))) {
            Some(rest) => Some(seq![first_char(text)] + rest),
            None => None,
        }
    }
}

/// A text is written character by character, the first one first.
pub proof fn lemma_escaped_from_the_front(c: char, rest: Seq<char>)
    ensures
        json_escaped(seq![c] + rest) == escaped_char(c) + json_escaped(rest),
    decreases rest.len(),
{
    let text = seq![c] + rest;
    if rest.len() == 0 {
        assert(text.drop_last() =~= Seq::<char>::empty());
        assert(json_escaped(text.drop_last()) =~= Seq::<char>::empty());
        assert(json_escaped(rest) =~= Seq::<char>::empty());
        assert(json_escaped(text) =~= escaped_char(c) + json_escaped(rest));
    } else {
        lemma_escaped_from_the_front(c, rest.drop_last());
        assert(text.drop_last() =~= seq![c] + rest.drop_last());
        assert(text.last() == rest.last());
        assert(json_escaped(text) =~= escaped_char(c) + json_escaped(rest));
    }
}

/// A reader takes a written character for the character that was written,
/// whatever follows it.
pub proof fn lemma_written_char_is_read(c: char, tail: Seq<char>)
    ensures
        first_width(escaped_char(c) + tail) == escaped_char(c).len(),
        first_char(escaped_char(c) + tail) == c,
        (escaped_char(c) + tail).skip(escaped_char(c).len() as int) == tail,
{
    let text = escaped_char(c) + tail;
    assert(text.skip(escaped_char(c).len() as int) =~= tail);
    if c == '"' || c == '\\' {
        assert(text[0] == '\\');
        assert(text[1] == c);
    } else if (c as u32) < 0x20 {
        let high = (c as u32 / 16) as int;
        let low = (c as u32 % 16) as int;
        assert(text[0] == '\\');
        assert(text[1] == 'u');
        assert(text[2] == '0');
        assert(text[3] == '0');
        assert(text[4] == hex_digit(high));
        assert(text[5] == hex_digit(low));
        assert(hex_value(hex_digit(high)) == high);
        assert(hex_value(hex_digit(low)) == low);
        assert(16 * high + low == c as u32);
        assert(first_width(text) == 6);
        vstd::utf8::char_u32_cast(c, c as u32);
    } else {
        assert(text[0] == c);
        assert(is_plain(c));
    }
}

/// What is written for a text is read as that text: the escaping loses
/// nothing, and nothing in the written form ends the string early.
pub proof fn lemma_escaped_text_reads_back(text: Seq<char>)
    ensures
        json_unescaped(json_escaped(text)) == Some(text),
    decreases text.len(),
{
    if text.len() == 0 {
        assert(json_escaped(text) =~= Seq::<char>::empty());
    } else {
        let c = text[0];
        let rest = text.skip(1);
        assert(seq![c] + rest =~= text);
        lemma_escaped_from_the_front(c, rest);
        lemma_written_char_is_read(c, json_escaped(rest));
        lemma_escaped_text_reads_back(rest);
        let written = json_escaped(text);
        assert(written == escaped_char(c) + json_escaped(rest));
        assert(written.len() > 0);
        assert(seq![c] + rest =~= text);
    }
}

/// A text of plain characters is written inside a JSON string as it is.
pub proof fn lemma_plain_text_is_unchanged(text: Seq<char>)
    requires
        forall|i: int| 0 <= i < text.len() ==> is_plain(#[trigger] text[i]),
    ensures
        json_escaped(text) == text,
    decreases text.len(),
{
    if text.len() > 0 {
        let front = text.drop_last();
        assert forall|i: int| 0 <= i < front.len() implies is_plain(#[trigger] front[i]) by {
            assert(front[i] == text[i]);
        }
        lemma_plain_text_is_unchanged(front);
        assert(is_plain(text[text.len() - 1]));
        assert(front + seq![text.last()] =~= text);
    }
}

} // verus!
