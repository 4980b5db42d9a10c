//! Escaping of text for markup, as GLib's `markup_escape_text` does it.
use vstd::prelude::*;

verus! {

/// The digits of a hexadecimal number, by value.
pub open spec fn hex_digits() -> Seq<char> {
    "0123456789abcdef"@
}

/// A number below 256 in hexadecimal, without leading zeros.
pub open spec fn hex(n: int) -> Seq<char> {
    if n < 16 {
        seq![hex_digits()[n]]
    } else {
        seq![hex_digits()[n / 16], hex_digits()[n % 16]]
    }
}

/// The control characters that markup cannot hold as they are. Tab, line feed, carriage
/// return and next line are not among them.
pub open spec fn is_control(c: char) -> bool {
    let n = c as int;
    ||| 0x1 <= n <= 0x8
    ||| 0xb <= n <= 0xc
    ||| 0xe <= n <= 0x1f
    ||| 0x7f <= n <= 0x84
    ||| 0x86 <= n <= 0x9f
}

/// One character in markup.
pub open spec fn escaped_char(c: char) -> Seq<char> {
    if c == '&' {
        "&amp;"@
    } else if c == '<' {
        "&lt;"@
    } else if c == '>' {
        "&gt;"@
    } else if c == '\'' {
        "&apos;"@
    } else if c == '"' {
        "&quot;"@
    } else if is_control(c) {
        "&#x"@ + hex(c as int) + ";"@
    } else {
        seq![c]
    }
}

/// A text in markup: its characters one by one, up to a NUL, which ends the text.
pub open spec fn escaped(text: Seq<char>) -> Seq<char>
    decreases text.len(),
{
    if text.len() == 0 || text[0] == '\0' {
        Seq::empty()
    } else {
        escaped_char(text[0]) + escaped(text.drop_first())
    }
}

fn hex_digit(n: u32) -> (digit: char)
    requires
        n < 16,
    ensures
        digit == hex_digits()[n as int],
{
    proof {
        reveal_strlit("0123456789abcdef");
    }
    match n {
        0 => '0',
        1 => '1',
        2 => '2',
        3 => '3',
        4 => '4',
        5 => '5',
        6 => '6',
        7 => '7',
        8 => '8',
        9 => '9',
        10 => 'a',
        11 => 'b',
        12 => 'c',
        13 => 'd',
        14 => 'e',
        _ => 'f',
    }
}

fn is_control_char(c: char) -> (control: bool)
    ensures
        control == is_control(c),
{
    let n: u32 = c as u32;
    (0x1 <= n && n <= 0x8) || (0xb <= n && n <= 0xc) || (0xe <= n && n <= 0x1f) || (0x7f <= n && n
        <= 0x84) || (0x86 <= n && n <= 0x9f)
}

fn push_escaped(out: &mut String, c: char)
    ensures
        final(out)@ == old(out)@ + escaped_char(c),
{
    if c == '&' {
        out.append("&amp;");
    } else if c == '<' {
        out.append("&lt;");
    } else if c == '>' {
        out.append("&gt;");
    } else if c == '\'' {
        out.append("&apos;");
    } else if c == '"' {
        out.append("&quot;");
    } else if is_control_char(c) {
        let n: u32 = c as u32;
        out.append("&#x");
        if n >= 16 {
            out.push(hex_digit(n / 16));
        }
        out.push(hex_digit(n % 16));
        out.append(";");
    } else {
        out.push(c);
    }
}

/// Replaces the characters that have a meaning in markup by references to them.
pub fn markup_escape_text(text: &str) -> (markup: String)
    ensures
        markup@ == escaped(text@),
{
    let mut markup: String = String::new();
    let mut done: bool = false;
    assert(text@.skip(0) == text@);
    for c in it: text.chars()
        invariant
            it.seq() == text@,
            done ==> markup@ == escaped(text@),
            !done ==> markup@ + escaped(text@.skip(it.index())) == escaped(text@),
    {
        let ghost rest = text@.skip(it.index());
        assert(rest.drop_first() == text@.skip(it.index() + 1));
        if !done {
            if c == '\0' {
                done = true;
            } else {
                push_escaped(&mut markup, c);
            }
        }
    }
    markup
}

/// Text is escaped piece by piece: the pieces of a text that holds no NUL before the last of them
/// are escaped one after the other.
pub proof fn law_pieces_are_escaped_apart(a: Seq<char>, b: Seq<char>)
    requires
        !a.contains('\0'),
    ensures
        escaped(a + b) == escaped(a) + escaped(b),
    decreases a.len(),
{
    if a.len() == 0 {
        assert(a + b =~= b);
    } else {
        let rest = a.drop_first();
        assert(a[0] != '\0');
        assert(!rest.contains('\0')) by {
            if rest.contains('\0') {
                let i = choose|i: int| 0 <= i < rest.len() && rest[i] == '\0';
                assert(a[i + 1] == '\0');
            }
        }
        law_pieces_are_escaped_apart(rest, b);
        assert((a + b).drop_first() =~= rest + b);
    }
}

/// A NUL ends the text: what is behind it is lost.
pub proof fn law_nul_ends_the_text(a: Seq<char>, b: Seq<char>)
    requires
        !a.contains('\0'),
    ensures
        escaped(a + seq!['\0'] + b) == escaped(a),
{
    law_pieces_are_escaped_apart(a, seq!['\0'] + b);
    assert(a + (seq!['\0'] + b) =~= a + seq!['\0'] + b);
}

/// A character that has a meaning in markup is escaped by its name, a control character by its
/// number in hexadecimal, and every other character is kept as it is.
pub proof fn law_escaped_characters(c: char)
    requires
        c != '\0',
    ensures
        ({
            let n = c as int;
            let control = 0x1 <= n <= 0x8 || 0xb <= n <= 0xc || 0xe <= n <= 0x1f || 0x7f <= n
                <= 0x84 || 0x86 <= n <= 0x9f;
            let digit = |value: int|
                (if value < 10 {
                    value + 48
                } else {
                    value + 87
                }) as char;
            &&& c == '&' ==> escaped(seq![c]) == "&amp;"@
            &&& c == '<' ==> escaped(seq![c]) == "&lt;"@
            &&& c == '>' ==> escaped(seq![c]) == "&gt;"@
            &&& c == '\'' ==> escaped(seq![c]) == "&apos;"@
            &&& c == '"' ==> escaped(seq![c]) == "&quot;"@
            &&& control && n < 16 ==> escaped(seq![c]) == "&#x"@ + seq![digit(n), ';']
            &&& control && n >= 16 ==> escaped(seq![c]) == "&#x"@ + seq![
                digit(n / 16),
                digit(n % 16),
                ';',
            ]
            &&& !control && c != '&' && c != '<' && c != '>' && c != '\'' && c != '"' ==> escaped(
                seq![c],
            ) == seq![c]
        }),
{
    reveal_strlit("0123456789abcdef");
    reveal_strlit(";");
    reveal_with_fuel(escaped, 2);
    assert(seq![c].drop_first() =~= Seq::<char>::empty());
    assert(escaped(seq![c]) =~= escaped_char(c));
    let n = c as int;
    if is_control(c) {
        if n < 16 {
            assert("&#x"@ + hex(n) + ";"@ =~= "&#x"@ + seq![hex_digits()[n], ';']);
        } else {
            assert("&#x"@ + hex(n) + ";"@ =~= "&#x"@ + seq![
                hex_digits()[n / 16],
                hex_digits()[n % 16],
                ';',
            ]);
        }
    }
}

} // verus!
