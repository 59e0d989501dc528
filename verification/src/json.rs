//! The JSON form of a text: the literal that the workflow embeds a text by.
//!
//! The literal is made by `serde_json`; what it is, is stated here character
//! by character, and that it embeds the text safely is proved from that.

use vstd::prelude::*;
use crate::bridge::json_encode_str;

verus! {

/// The small hexadecimal digit for `d`.
pub open spec fn hex_digit(d: int) -> char
    recommends
        0 <= d < 16,
{
    if d < 10 {
        ((48 + d) as u8) as char
    } else {
        ((87 + d) as u8) as char
    }
}

/// What stands for one character inside a JSON string literal: the quotation
/// mark and the backslash behind a backslash, the control characters by
/// their short names or by their code, and every other character itself.
pub open spec fn escape_of(c: char) -> Seq<char> {
    let n = c as u32;
    if n == 0x22 {
        seq!['\\', '"']
    } else if n == 0x5C {
        seq!['\\', '\\']
    } else if n == 0x08 {
        seq!['\\', 'b']
    } else if n == 0x09 {
        seq!['\\', 't']
    } else if n == 0x0A {
        seq!['\\', 'n']
    } else if n == 0x0C {
        seq!['\\', 'f']
    } else if n == 0x0D {
        seq!['\\', 'r']
    } else if n < 0x20 {
        seq!['\\', 'u', '0', '0', hex_digit(n as int / 16), hex_digit(n as int % 16)]
    } else {
        seq![c]
    }
}

/// The characters of `s`, each by what stands for it.
pub open spec fn json_escaped(s: Seq<char>) -> Seq<char>
    decreases s.len(),
{
    if s.len() == 0 {
        Seq::empty()
    } else {
        escape_of(s[0]) + json_escaped(s.drop_first())
    }
}

/// The JSON string literal of `s`: a quotation mark, the characters of `s`
/// escaped, and a quotation mark.
pub open spec fn json_string_literal(s: Seq<char>) -> Seq<char> {
    seq!['"'] + json_escaped(s) + seq!['"']
}

/// The JSON string literal of `text`.
pub fn json_literal(text: &str) -> (literal: String)
    ensures
        literal@ == json_string_literal(text@),
{
    match json_encode_str(text) {
        Some(literal) => literal,
        None => vstd::pervasive::unreached(),
    }
}

// ---------------------------------------------------------------------------
// Reading a literal
// ---------------------------------------------------------------------------

/// The index of the first quotation mark at or behind `from` that does not
/// follow a backslash as its escape: where a reader that started inside a
/// string literal leaves it. The length of `l` where there is none.
pub open spec fn closing_quote(l: Seq<char>, from: int) -> int
    decreases l.len() - from,
{
    if from < 0 || from >= l.len() {
        l.len() as int
    } else if l[from] == '"' {
        from
    } else if l[from] != '\\' {
        closing_quote(l, from + 1)
    } else if from + 1 >= l.len() {
        l.len() as int
    } else {
        closing_quote(l, from + 2)
    }
}

/// The value of a hexadecimal digit.
pub open spec fn hex_value(c: char) -> int {
    let n = c as u32 as int;
    if 48 <= n <= 57 {
        n - 48
    } else if 97 <= n <= 102 {
        n - 87
    } else {
        0
    }
}

/// The text that a reader takes from the inside of a string literal, from
/// `from` up to the closing quotation mark.
pub open spec fn text_of(l: Seq<char>, from: int) -> Seq<char>
    decreases l.len() - from,
{
    if from < 0 || from >= l.len() || l[from] == '"' {
        Seq::empty()
    } else if l[from] != '\\' {
        seq![l[from]] + text_of(l, from + 1)
    } else if from + 1 >= l.len() {
        Seq::empty()
    } else if l[from + 1] == 'u' {
        if from + 5 >= l.len() {
            Seq::empty()
        } else {
            seq![((hex_value(l[from + 4]) * 16 + hex_value(l[from + 5])) as u8) as char] + text_of(
                l,
                from + 6,
            )
        }
    } else {
        seq![
            if l[from + 1] == 'b' {
                8u8 as char
            } else if l[from + 1] == 't' {
                9u8 as char
            } else if l[from + 1] == 'n' {
                10u8 as char
            } else if l[from + 1] == 'f' {
                12u8 as char
            } else if l[from + 1] == 'r' {
                13u8 as char
            } else {
                l[from + 1]
            },
        ] + text_of(l, from + 2)
    }
}

// ---------------------------------------------------------------------------
// Laws
// ---------------------------------------------------------------------------

/// What stands for a character is one, two or six characters long, holds no
/// control character, and holds a quotation mark or a backslash only behind
/// a backslash.
pub proof fn lemma_escape_of(c: char)
    ensures
        escape_of(c).len() == 1 || escape_of(c).len() == 2 || escape_of(c).len() == 6,
        forall|k: int| 0 <= k < escape_of(c).len() ==> (#[trigger] escape_of(c)[k]) as u32 >= 0x20,
        escape_of(c).len() == 1 ==> escape_of(c)[0] == c && c != '"' && c != '\\',
        escape_of(c).len() > 1 ==> escape_of(c)[0] == '\\',
        escape_of(c).len() == 6 ==> {
            &&& escape_of(c)[1] == 'u'
            &&& escape_of(c)[2] == '0'
            &&& escape_of(c)[3] == '0'
            &&& escape_of(c)[4] == hex_digit(c as u32 as int / 16)
            &&& escape_of(c)[5] == hex_digit(c as u32 as int % 16)
            &&& (c as u32) < 0x20
        },
{
}

/// The character that a short escape names is the character that it stands
/// for.
pub proof fn lemma_short_escape(c: char)
    requires
        escape_of(c).len() == 2,
    ensures
        escape_of(c)[0] == '\\',
        escape_of(c)[1] != 'u',
        c == (if escape_of(c)[1] == 'b' {
            8u8 as char
        } else if escape_of(c)[1] == 't' {
            9u8 as char
        } else if escape_of(c)[1] == 'n' {
            10u8 as char
        } else if escape_of(c)[1] == 'f' {
            12u8 as char
        } else if escape_of(c)[1] == 'r' {
            13u8 as char
        } else {
            escape_of(c)[1]
        }),
{
    if (c as u32) < 0x20 {
        assert((c as u8) as char == c);
    }
}

/// The code that a long escape spells is the code of the character that it
/// stands for.
pub proof fn lemma_long_escape(c: char)
    requires
        escape_of(c).len() == 6,
    ensures
        ((hex_value(escape_of(c)[4]) * 16 + hex_value(escape_of(c)[5])) as u8) as char == c,
{
    let n: int = (c as u32) as int;
    assert((c as u8) as char == c);
    assert(hex_value(hex_digit(n / 16)) == n / 16);
    assert(hex_value(hex_digit(n % 16)) == n % 16);
    assert(n / 16 * 16 + n % 16 == n);
}

/// A reader that meets the escaped form of a text inside a literal passes
/// over it, and takes the text from it.
pub proof fn lemma_reader_passes_escaped(l: Seq<char>, s: Seq<char>, at: int)
    requires
        0 <= at,
        at + json_escaped(s).len() <= l.len(),
        l.subrange(at, at + json_escaped(s).len()) == json_escaped(s),
    ensures
        closing_quote(l, at) == closing_quote(l, at + json_escaped(s).len()),
        text_of(l, at) == s + text_of(l, at + json_escaped(s).len()),
    decreases s.len(),
{
    if s.len() == 0 {
        assert(s + text_of(l, at) =~= text_of(l, at));
    } else {
        let c = s[0];
        let e = escape_of(c);
        let rest = json_escaped(s.drop_first());
        let whole = json_escaped(s);
        lemma_escape_of(c);
        assert(whole == e + rest);
        assert forall|k: int| 0 <= k < e.len() implies l[at + k] == #[trigger] e[k] by {
            assert(l.subrange(at, at + whole.len())[k] == l[at + k]);
            assert(whole[k] == e[k]);
        }
        assert(l.subrange(at + e.len(), at + e.len() + rest.len()) =~= rest) by {
            assert forall|k: int| 0 <= k < rest.len() implies l[at + e.len() + k] == rest[k] by {
                assert(l.subrange(at, at + whole.len())[e.len() + k] == l[at + e.len() + k]);
                assert(whole[e.len() + k] == rest[k]);
            }
        }
        lemma_reader_passes_escaped(l, s.drop_first(), at + e.len());
        if e.len() == 1 {
            assert(l[at] == e[0]);
            assert(closing_quote(l, at) == closing_quote(l, at + 1));
            assert(text_of(l, at) == seq![c] + text_of(l, at + 1));
        } else if e.len() == 2 {
            assert(l[at] == e[0]);
            assert(l[at + 1] == e[1]);
            assert(closing_quote(l, at) == closing_quote(l, at + 2));
            lemma_short_escape(c);
            assert(text_of(l, at) == seq![c] + text_of(l, at + 2));
        } else {
            assert(l[at] == e[0]);
            assert(l[at + 1] == e[1]);
            assert(l[at + 2] == e[2]);
            assert(l[at + 3] == e[3]);
            assert(l[at + 4] == e[4]);
            assert(l[at + 5] == e[5]);
            assert(closing_quote(l, at) == closing_quote(l, at + 2));
            assert(closing_quote(l, at + 2) == closing_quote(l, at + 3));
            assert(closing_quote(l, at + 3) == closing_quote(l, at + 4));
            assert(closing_quote(l, at + 4) == closing_quote(l, at + 5));
            assert(closing_quote(l, at + 5) == closing_quote(l, at + 6));
            lemma_long_escape(c);
            assert(text_of(l, at) == seq![c] + text_of(l, at + 6));
        }
        assert(seq![c] + (s.drop_first() + text_of(l, at + whole.len())) =~= s + text_of(
            l,
            at + whole.len(),
        ));
    }
}

/// A text is embedded safely. Its literal opens and closes with a quotation
/// mark and holds no control character; a reader that enters it leaves it at
/// its last character and nowhere before, whatever the text holds; and what
/// the reader takes from it is the text, character by character.
pub proof fn lemma_literal_embeds_the_text(s: Seq<char>)
    ensures
        json_string_literal(s).len() >= 2,
        json_string_literal(s)[0] == '"',
        json_string_literal(s).last() == '"',
        closing_quote(json_string_literal(s), 1) == json_string_literal(s).len() - 1,
        text_of(json_string_literal(s), 1) == s,
        forall|i: int|
            0 <= i < json_string_literal(s).len() ==> (#[trigger] json_string_literal(s)[i]) as u32
                >= 0x20,
{
    let l = json_string_literal(s);
    let e = json_escaped(s);
    let end = 1 + e.len() as int;
    assert(l.subrange(1, end) =~= e);
    lemma_reader_passes_escaped(l, s, 1);
    assert(l[end] == '"');
    assert(text_of(l, end) =~= Seq::<char>::empty());
    assert(s + Seq::<char>::empty() =~= s);
    lemma_escaped_has_no_control_character(s);
    assert forall|i: int| 0 <= i < l.len() implies (#[trigger] l[i]) as u32 >= 0x20 by {
        if 1 <= i < 1 + e.len() {
            assert(l[i] == e[i - 1]);
        }
    }
}

/// The escaped form of a text holds no control character: a literal stays
/// on one line.
pub proof fn lemma_escaped_has_no_control_character(s: Seq<char>)
    ensures
        forall|i: int| 0 <= i < json_escaped(s).len() ==> (#[trigger] json_escaped(s)[i]) as u32
            >= 0x20,
    decreases s.len(),
{
    if s.len() > 0 {
        lemma_escape_of(s[0]);
        lemma_escaped_has_no_control_character(s.drop_first());
        let e = escape_of(s[0]);
        let rest = json_escaped(s.drop_first());
        assert forall|i: int| 0 <= i < json_escaped(s).len() implies (
        #[trigger] json_escaped(s)[i]) as u32 >= 0x20 by {
            if i < e.len() {
                assert(json_escaped(s)[i] == e[i]);
            } else {
                assert(json_escaped(s)[i] == rest[i - e.len()]);
            }
        }
    }
}

} // verus!
