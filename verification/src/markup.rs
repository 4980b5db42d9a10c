//! Which texts are well-formed Pango markup, as far as message bodies use it.
use vstd::prelude::*;
use crate::escape::{escaped, escaped_char, hex, hex_digits, is_control};
use crate::text::{find, lemma_find, lemma_find_is, occurs_at};

verus! {

/// What may stand between `&` and `;`: the name of a character, or its number.
pub open spec fn is_reference(name: Seq<char>) -> bool {
    ||| name == "amp"@
    ||| name == "lt"@
    ||| name == "gt"@
    ||| name == "apos"@
    ||| name == "quot"@
    ||| {
        &&& name.len() >= 3
        &&& name[0] == '#'
        &&& name[1] == 'x'
        &&& forall|i: int| 2 <= i < name.len() ==> hex_digits().contains(#[trigger] name[i])
    }
}

/// The position of the `;` that ends the reference at the start of `markup`.
pub open spec fn reference_end(markup: Seq<char>) -> Option<int> {
    match find(markup, seq![';']) {
        Some(end) => if 1 <= end < markup.len() && is_reference(markup.subrange(1, end)) {
            Some(end)
        } else {
            None
        },
        None => None,
    }
}

/// Text without tags or quotes, in which each `&` begins a reference.
pub open spec fn is_character_data(markup: Seq<char>) -> bool
    decreases markup.len(),
{
    if markup.len() == 0 {
        true
    } else if markup[0] == '&' {
        match reference_end(markup) {
            Some(end) => 1 <= end < markup.len() && is_character_data(markup.skip(end + 1)),
            None => false,
        }
    } else {
        &&& markup[0] != '<'
        &&& markup[0] != '>'
        &&& markup[0] != '"'
        &&& markup[0] != '\''
        &&& is_character_data(markup.skip(1))
    }
}

/// The elements without attributes: bold, italic, struck through and monospaced text.
pub open spec fn is_style(name: Seq<char>) -> bool {
    name == "b"@ || name == "i"@ || name == "s"@ || name == "tt"@
}

/// The inside of the tag that opens a link to `target`.
pub open spec fn link_tag(target: Seq<char>) -> Seq<char> {
    "a href=\""@ + target + "\""@
}

/// The elements that are open after a tag, given those that were open before it, the
/// innermost one last. There are none where the tag cannot stand there.
pub open spec fn after_tag(tag: Seq<char>, open: Seq<Seq<char>>) -> Option<Seq<Seq<char>>> {
    if tag.len() > 0 && tag[0] == '/' {
        if open.len() > 0 && open.last() == tag.skip(1) {
            Some(open.drop_last())
        } else {
            None
        }
    } else if is_style(tag) {
        Some(open.push(tag))
    } else if exists|target: Seq<char>| tag == link_tag(target) && is_character_data(target) {
        Some(open.push("a"@))
    } else {
        None
    }
}

/// The elements that are open at the end of `markup`, given those that are open before it.
/// There are none where `markup` is broken.
pub open spec fn open_elements(markup: Seq<char>, open: Seq<Seq<char>>) -> Option<Seq<Seq<char>>>
    decreases markup.len(),
{
    if markup.len() == 0 {
        Some(open)
    } else if markup[0] == '<' {
        match find(markup, seq!['>']) {
            Some(end) => if 1 <= end < markup.len() {
                match after_tag(markup.subrange(1, end), open) {
                    Some(inner) => open_elements(markup.skip(end + 1), inner),
                    None => None,
                }
            } else {
                None
            },
            None => None,
        }
    } else if markup[0] == '&' {
        match reference_end(markup) {
            Some(end) => if 1 <= end < markup.len() {
                open_elements(markup.skip(end + 1), open)
            } else {
                None
            },
            None => None,
        }
    } else if markup[0] == '>' {
        None
    } else {
        open_elements(markup.skip(1), open)
    }
}

/// Every element is closed, in the opposite order, and every reference is one.
pub open spec fn is_well_formed(markup: Seq<char>) -> bool {
    open_elements(markup, Seq::empty()) == Some(Seq::<Seq<char>>::empty())
}

/// `piece` leads from the open elements `from` to the open elements `to`, whatever follows it.
pub open spec fn leads(piece: Seq<char>, from: Seq<Seq<char>>, to: Seq<Seq<char>>) -> bool {
    forall|rest: Seq<char>| #[trigger]
        open_elements(piece + rest, from) == open_elements(rest, to)
}

/// Two pieces one after the other.
pub proof fn lemma_leads_concat(
    a: Seq<char>,
    b: Seq<char>,
    from: Seq<Seq<char>>,
    mid: Seq<Seq<char>>,
    to: Seq<Seq<char>>,
)
    requires
        leads(a, from, mid),
        leads(b, mid, to),
    ensures
        leads(a + b, from, to),
{
    assert forall|rest: Seq<char>| #[trigger]
        open_elements((a + b) + rest, from) == open_elements(rest, to) by {
        assert((a + b) + rest == a + (b + rest));
    }
}

/// The empty piece changes nothing.
pub proof fn lemma_leads_empty(open: Seq<Seq<char>>)
    ensures
        leads(Seq::empty(), open, open),
{
}

/// The leftmost position of a character, from the characters before it.
proof fn lemma_find_char(text: Seq<char>, c: char, i: int)
    requires
        0 <= i < text.len(),
        text[i] == c,
        forall|j: int| 0 <= j < i ==> text[j] != c,
    ensures
        find(text, seq![c]) == Some(i),
{
    assert(text.subrange(i, i + 1) == seq![c]);
    assert forall|j: int| 0 <= j < i implies !occurs_at(text, seq![c], j) by {
        if occurs_at(text, seq![c], j) {
            assert(text.subrange(j, j + 1)[0] == seq![c][0]);
        }
    }
    lemma_find_is(text, seq![c], i);
}

/// What a found position of a character says of the characters.
proof fn lemma_found_char(text: Seq<char>, c: char, i: int)
    requires
        find(text, seq![c]) == Some(i),
    ensures
        0 <= i < text.len(),
        text[i] == c,
        forall|j: int| 0 <= j < i ==> text[j] != c,
{
    lemma_find(text, seq![c]);
    assert(text.subrange(i, i + 1)[0] == seq![c][0]);
    assert forall|j: int| 0 <= j < i implies text[j] != c by {
        if text[j] == c {
            assert(text.subrange(j, j + 1) == seq![c]);
            assert(occurs_at(text, seq![c], j));
        }
    }
}

/// A reference at the start of a text ends at the same place whatever follows the text.
proof fn lemma_reference_end_extends(piece: Seq<char>, rest: Seq<char>)
    requires
        reference_end(piece) is Some,
    ensures
        reference_end(piece + rest) == reference_end(piece),
        0 <= reference_end(piece)->0 < piece.len(),
{
    let end = reference_end(piece)->0;
    lemma_found_char(piece, ';', end);
    lemma_find_char(piece + rest, ';', end);
    assert((piece + rest).subrange(1, end) == piece.subrange(1, end));
}

/// Character data opens and closes nothing.
pub proof fn lemma_leads_data(piece: Seq<char>, open: Seq<Seq<char>>)
    requires
        is_character_data(piece),
    ensures
        leads(piece, open, open),
    decreases piece.len(),
{
    if piece.len() == 0 {
        lemma_leads_empty(open);
    } else {
        let first = if piece[0] == '&' {
            reference_end(piece)->0 + 1
        } else {
            1
        };
        let tail = piece.skip(first);
        if piece[0] == '&' {
            lemma_reference_end_extends(piece, Seq::empty());
        }
        lemma_leads_data(tail, open);
        assert forall|rest: Seq<char>| #[trigger]
            open_elements(piece + rest, open) == open_elements(rest, open) by {
            if piece[0] == '&' {
                lemma_reference_end_extends(piece, rest);
            }
            assert((piece + rest).skip(first) == tail + rest);
            assert(open_elements(tail + rest, open) == open_elements(rest, open));
        }
    }
}

/// A tag leads to what is open after it.
pub proof fn lemma_leads_tag(tag: Seq<char>, from: Seq<Seq<char>>, to: Seq<Seq<char>>)
    requires
        forall|i: int| 0 <= i < tag.len() ==> tag[i] != '>',
        after_tag(tag, from) == Some(to),
    ensures
        leads(seq!['<'] + tag + seq!['>'], from, to),
{
    let piece = seq!['<'] + tag + seq!['>'];
    let end: int = tag.len() + 1int;
    assert forall|rest: Seq<char>| #[trigger]
        open_elements(piece + rest, from) == open_elements(rest, to) by {
        let markup = piece + rest;
        lemma_find_char(markup, '>', end);
        assert(markup.subrange(1, end) == tag);
        assert(markup.skip(end + 1) == rest);
    }
}

/// No reference holds a `;` or a `>`.
proof fn lemma_reference_chars(name: Seq<char>)
    requires
        is_reference(name),
    ensures
        forall|i: int| 0 <= i < name.len() ==> name[i] != ';' && name[i] != '>',
{
    reveal_strlit("amp");
    reveal_strlit("lt");
    reveal_strlit("gt");
    reveal_strlit("apos");
    reveal_strlit("quot");
    reveal_strlit("0123456789abcdef");
}

/// A reference in front of character data makes character data.
proof fn lemma_reference_then_data(name: Seq<char>, tail: Seq<char>)
    requires
        is_reference(name),
        is_character_data(tail),
    ensures
        is_character_data(seq!['&'] + name + seq![';'] + tail),
{
    let markup = seq!['&'] + name + seq![';'] + tail;
    let end: int = name.len() + 1int;
    lemma_reference_chars(name);
    lemma_find_char(markup, ';', end);
    assert(markup.subrange(1, end) == name);
    assert(markup.skip(end + 1) == tail);
}

/// An escaped character in front of character data makes character data.
proof fn lemma_escaped_char_then_data(c: char, tail: Seq<char>)
    requires
        is_character_data(tail),
    ensures
        is_character_data(escaped_char(c) + tail),
{
    reveal_strlit("&amp;");
    reveal_strlit("&lt;");
    reveal_strlit("&gt;");
    reveal_strlit("&apos;");
    reveal_strlit("&quot;");
    reveal_strlit("amp");
    reveal_strlit("lt");
    reveal_strlit("gt");
    reveal_strlit("apos");
    reveal_strlit("quot");
    reveal_strlit("&#x");
    reveal_strlit(";");
    let markup = escaped_char(c) + tail;
    if c == '&' {
        assert("&amp;"@ + tail == seq!['&'] + "amp"@ + seq![';'] + tail);
        lemma_reference_then_data("amp"@, tail);
    } else if c == '<' {
        assert("&lt;"@ + tail == seq!['&'] + "lt"@ + seq![';'] + tail);
        lemma_reference_then_data("lt"@, tail);
    } else if c == '>' {
        assert("&gt;"@ + tail == seq!['&'] + "gt"@ + seq![';'] + tail);
        lemma_reference_then_data("gt"@, tail);
    } else if c == '\'' {
        assert("&apos;"@ + tail == seq!['&'] + "apos"@ + seq![';'] + tail);
        lemma_reference_then_data("apos"@, tail);
    } else if c == '"' {
        assert("&quot;"@ + tail == seq!['&'] + "quot"@ + seq![';'] + tail);
        lemma_reference_then_data("quot"@, tail);
    } else if is_control(c) {
        reveal_strlit("0123456789abcdef");
        let number = seq!['#', 'x'] + hex(c as int);
        assert(escaped_char(c) + tail == seq!['&'] + number + seq![';'] + tail);
        lemma_reference_then_data(number, tail);
    } else {
        assert(markup.skip(1) == tail);
    }
}

/// An escaped text is character data: it holds no tag and no quote, and each `&` in it
/// begins a reference.
pub proof fn lemma_escaped_is_data(text: Seq<char>)
    ensures
        is_character_data(escaped(text)),
    decreases text.len(),
{
    if text.len() > 0 && text[0] != '\0' {
        lemma_escaped_is_data(text.drop_first());
        lemma_escaped_char_then_data(text[0], escaped(text.drop_first()));
    }
}

/// Character data holds no `>`.
pub proof fn lemma_data_chars(markup: Seq<char>)
    requires
        is_character_data(markup),
    ensures
        forall|i: int| 0 <= i < markup.len() ==> markup[i] != '>',
    decreases markup.len(),
{
    if markup.len() > 0 {
        let first = if markup[0] == '&' {
            reference_end(markup)->0 + 1
        } else {
            1
        };
        lemma_data_chars(markup.skip(first));
        if markup[0] == '&' {
            lemma_reference_chars(markup.subrange(1, first - 1));
            lemma_found_char(markup, ';', first - 1);
        }
        assert forall|i: int| 0 <= i < markup.len() implies markup[i] != '>' by {
            if i >= first {
                assert(markup[i] == markup.skip(first)[i - first]);
            } else if 1 <= i < first - 1 {
                assert(markup[i] == markup.subrange(1, first - 1)[i - 1]);
            }
        }
    }
}

/// The value of a hexadecimal digit.
pub open spec fn digit_value(digit: char) -> int {
    if digit <= '9' {
        digit as int - '0' as int
    } else {
        digit as int - 'a' as int + 10
    }
}

/// The value of a hexadecimal number.
pub open spec fn hex_value(digits: Seq<char>) -> int
    decreases digits.len(),
{
    if digits.len() == 0 {
        0
    } else {
        16 * hex_value(digits.drop_last()) + digit_value(digits.last())
    }
}

/// The character that a reference stands for.
pub open spec fn referred_char(name: Seq<char>) -> char {
    if name == "amp"@ {
        '&'
    } else if name == "lt"@ {
        '<'
    } else if name == "gt"@ {
        '>'
    } else if name == "apos"@ {
        '\''
    } else if name == "quot"@ {
        '"'
    } else {
        hex_value(name.skip(2)) as char
    }
}

/// The text that markup shows: tags show nothing, and references show their characters.
pub open spec fn shown_text(markup: Seq<char>) -> Seq<char>
    decreases markup.len(),
{
    if markup.len() == 0 {
        Seq::empty()
    } else if markup[0] == '<' {
        match find(markup, seq!['>']) {
            Some(end) => if 1 <= end < markup.len() {
                shown_text(markup.skip(end + 1))
            } else {
                Seq::empty()
            },
            None => Seq::empty(),
        }
    } else if markup[0] == '&' {
        match reference_end(markup) {
            Some(end) => if 1 <= end < markup.len() {
                seq![referred_char(markup.subrange(1, end))] + shown_text(markup.skip(end + 1))
            } else {
                Seq::empty()
            },
            None => Seq::empty(),
        }
    } else {
        seq![markup[0]] + shown_text(markup.skip(1))
    }
}

/// A reference shows its character.
proof fn lemma_reference_is_shown(name: Seq<char>, tail: Seq<char>)
    requires
        is_reference(name),
    ensures
        shown_text(seq!['&'] + name + seq![';'] + tail) == seq![referred_char(name)] + shown_text(
            tail,
        ),
{
    let markup = seq!['&'] + name + seq![';'] + tail;
    let end: int = name.len() + 1int;
    lemma_reference_chars(name);
    lemma_find_char(markup, ';', end);
    assert(markup.subrange(1, end) == name);
    assert(markup.skip(end + 1) == tail);
}

/// A digit has its value.
proof fn lemma_digit_value(d: int)
    requires
        0 <= d < 16,
    ensures
        digit_value(hex_digits()[d]) == d,
{
    reveal_strlit("0123456789abcdef");
}

/// A number written in hexadecimal has its value.
proof fn lemma_hex_value(n: int)
    requires
        0 <= n < 256,
    ensures
        hex_value(hex(n)) == n,
{
    reveal_with_fuel(hex_value, 3);
    if n < 16 {
        lemma_digit_value(n);
    } else {
        lemma_digit_value(n / 16);
        lemma_digit_value(n % 16);
    }
}

/// An escaped character shows that character.
proof fn lemma_escaped_char_is_shown(c: char, tail: Seq<char>)
    ensures
        shown_text(escaped_char(c) + tail) == seq![c] + shown_text(tail),
{
    reveal_strlit("&amp;");
    reveal_strlit("&lt;");
    reveal_strlit("&gt;");
    reveal_strlit("&apos;");
    reveal_strlit("&quot;");
    reveal_strlit("amp");
    reveal_strlit("lt");
    reveal_strlit("gt");
    reveal_strlit("apos");
    reveal_strlit("quot");
    reveal_strlit("&#x");
    reveal_strlit(";");
    let markup = escaped_char(c) + tail;
    if c == '&' {
        assert(markup == seq!['&'] + "amp"@ + seq![';'] + tail);
        lemma_reference_is_shown("amp"@, tail);
    } else if c == '<' {
        assert(markup == seq!['&'] + "lt"@ + seq![';'] + tail);
        lemma_reference_is_shown("lt"@, tail);
    } else if c == '>' {
        assert(markup == seq!['&'] + "gt"@ + seq![';'] + tail);
        lemma_reference_is_shown("gt"@, tail);
        assert("gt"@[0] != "lt"@[0] && "gt"@[0] != "amp"@[0]);
    } else if c == '\'' {
        assert(markup == seq!['&'] + "apos"@ + seq![';'] + tail);
        lemma_reference_is_shown("apos"@, tail);
    } else if c == '"' {
        assert(markup == seq!['&'] + "quot"@ + seq![';'] + tail);
        lemma_reference_is_shown("quot"@, tail);
        assert("quot"@[0] != "apos"@[0] && "quot"@[0] != "amp"@[0]);
    } else if is_control(c) {
        reveal_strlit("0123456789abcdef");
        let number = seq!['#', 'x'] + hex(c as int);
        assert(markup == seq!['&'] + number + seq![';'] + tail);
        lemma_reference_is_shown(number, tail);
        assert(number.skip(2) == hex(c as int));
        lemma_hex_value(c as int);
    } else {
        assert(markup.skip(1) == tail);
    }
}

/// `piece` shows `text`, whatever follows it.
pub open spec fn shows(piece: Seq<char>, text: Seq<char>) -> bool {
    forall|rest: Seq<char>| #[trigger] shown_text(piece + rest) == text + shown_text(rest)
}

/// Two pieces show their texts one after the other.
pub proof fn lemma_shows_concat(a: Seq<char>, b: Seq<char>, text_a: Seq<char>, text_b: Seq<char>)
    requires
        shows(a, text_a),
        shows(b, text_b),
    ensures
        shows(a + b, text_a + text_b),
{
    assert forall|rest: Seq<char>| #[trigger]
        shown_text((a + b) + rest) == (text_a + text_b) + shown_text(rest) by {
        assert((a + b) + rest == a + (b + rest));
    }
}

/// The empty piece shows nothing.
pub proof fn lemma_shows_nothing()
    ensures
        shows(Seq::empty(), Seq::empty()),
{
}

/// A tag shows nothing.
pub proof fn lemma_shows_tag(tag: Seq<char>)
    requires
        forall|i: int| 0 <= i < tag.len() ==> tag[i] != '>',
    ensures
        shows(seq!['<'] + tag + seq!['>'], Seq::empty()),
{
    let piece = seq!['<'] + tag + seq!['>'];
    let end: int = tag.len() + 1int;
    assert forall|rest: Seq<char>| #[trigger]
        shown_text(piece + rest) == Seq::<char>::empty() + shown_text(rest) by {
        let markup = piece + rest;
        lemma_find_char(markup, '>', end);
        assert(markup.skip(end + 1) == rest);
    }
}

/// A character without a meaning in markup shows itself.
pub proof fn lemma_shows_plain(c: char)
    requires
        c != '<',
        c != '&',
    ensures
        shows(seq![c], seq![c]),
{
    assert forall|rest: Seq<char>| #[trigger]
        shown_text(seq![c] + rest) == seq![c] + shown_text(rest) by {
        assert((seq![c] + rest).skip(1) == rest);
    }
}

/// Escaped text shows the text, for every text without the NUL that ends one.
pub proof fn lemma_shows_escaped(text: Seq<char>)
    requires
        !text.contains('\0'),
    ensures
        shows(escaped(text), text),
    decreases text.len(),
{
    if text.len() == 0 {
        lemma_shows_nothing();
    } else {
        let rest = text.drop_first();
        lemma_shows_escaped(rest);
        let first = escaped_char(text[0]);
        assert(shows(first, seq![text[0]])) by {
            assert forall|tail: Seq<char>| #[trigger]
                shown_text(first + tail) == seq![text[0]] + shown_text(tail) by {
                lemma_escaped_char_is_shown(text[0], tail);
            }
        }
        lemma_shows_concat(first, escaped(rest), seq![text[0]], rest);
        assert(seq![text[0]] + rest == text);
    }
}

/// Escaped text is shown as it was, for every text without the NUL that ends one.
pub proof fn law_escaped_text_is_shown_verbatim(text: Seq<char>)
    requires
        !text.contains('\0'),
    ensures
        is_character_data(escaped(text)),
        shown_text(escaped(text)) == text,
{
    lemma_escaped_is_data(text);
    lemma_shows_escaped(text);
    assert(shown_text(escaped(text) + Seq::<char>::empty()) == text + shown_text(
        Seq::<char>::empty(),
    ));
}

} // verus!
