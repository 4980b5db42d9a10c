//! Text as sequences of characters: searching, replacing and joining.
use vstd::prelude::*;

verus! {

/// `pattern` stands in `text` at position `i`.
pub open spec fn occurs_at(text: Seq<char>, pattern: Seq<char>, i: int) -> bool {
    &&& 0 <= i
    &&& i + pattern.len() <= text.len()
    &&& text.subrange(i, i + pattern.len()) == pattern
}

/// `i` is the leftmost position at which `pattern` stands in `text`.
pub open spec fn is_first_occurrence(text: Seq<char>, pattern: Seq<char>, i: int) -> bool {
    &&& occurs_at(text, pattern, i)
    &&& forall|j: int| 0 <= j < i ==> !occurs_at(text, pattern, j)
}

/// The leftmost position of `pattern` in `text`.
pub open spec fn find(text: Seq<char>, pattern: Seq<char>) -> Option<int> {
    if exists|i: int| is_first_occurrence(text, pattern, i) {
        Some(choose|i: int| is_first_occurrence(text, pattern, i))
    } else {
        None
    }
}

/// `text` begins with `prefix`.
pub open spec fn starts_with(text: Seq<char>, prefix: Seq<char>) -> bool {
    occurs_at(text, prefix, 0)
}

/// `text` with the leftmost `pattern` replaced by `value`; `text` itself where there is none.
pub open spec fn replaced_once(text: Seq<char>, pattern: Seq<char>, value: Seq<char>) -> Seq<char> {
    match find(text, pattern) {
        Some(i) => text.take(i) + value + text.skip(i + pattern.len()),
        None => text,
    }
}

/// The texts of a list of strings.
pub open spec fn texts(strings: Seq<String>) -> Seq<Seq<char>> {
    strings.map_values(|s: String| s@)
}

/// `parts` one after the other with `separator` between neighbours.
pub open spec fn joined(parts: Seq<Seq<char>>, separator: Seq<char>) -> Seq<char>
    decreases parts.len(),
{
    if parts.len() == 0 {
        Seq::empty()
    } else if parts.len() == 1 {
        parts[0]
    } else {
        joined(parts.drop_last(), separator) + separator + parts.last()
    }
}

/// A leftmost position is what `find` gives.
pub proof fn lemma_find_is(text: Seq<char>, pattern: Seq<char>, i: int)
    requires
        is_first_occurrence(text, pattern, i),
    ensures
        find(text, pattern) == Some(i),
{
    let k = choose|k: int| is_first_occurrence(text, pattern, k);
    assert(k == i);
}

/// What `find` gives is a leftmost position, and it gives one where there is any.
pub proof fn lemma_find(text: Seq<char>, pattern: Seq<char>)
    ensures
        match find(text, pattern) {
            Some(i) => is_first_occurrence(text, pattern, i) && 0 <= i && i + pattern.len()
                <= text.len(),
            None => forall|i: int| !occurs_at(text, pattern, i),
        },
{
    if find(text, pattern) is None {
        assert forall|i: int| !occurs_at(text, pattern, i) by {
            if occurs_at(text, pattern, i) {
                lemma_leftmost(text, pattern, i);
            }
        }
    }
}

/// Where a pattern stands somewhere, it has a leftmost position.
proof fn lemma_leftmost(text: Seq<char>, pattern: Seq<char>, i: int)
    requires
        occurs_at(text, pattern, i),
    ensures
        exists|k: int| is_first_occurrence(text, pattern, k),
    decreases i,
{
    if exists|j: int| 0 <= j < i && occurs_at(text, pattern, j) {
        let j = choose|j: int| 0 <= j < i && occurs_at(text, pattern, j);
        lemma_leftmost(text, pattern, j);
    } else {
        assert(is_first_occurrence(text, pattern, i));
    }
}

/// `String::push` appends one character.
pub assume_specification[ String::push ](s: &mut String, c: char)
    ensures
        final(s)@ == old(s)@.push(c),
;

/// The characters of a string.
pub fn chars_of(text: &str) -> (chars: Vec<char>)
    ensures
        chars@ == text@,
{
    let mut chars: Vec<char> = Vec::new();
    for c in it: text.chars()
        invariant
            it.seq() == text@,
            chars@ == text@.take(it.index()),
    {
        chars.push(c);
    }
    chars
}

/// The string made of the characters from `from` up to `to`.
pub fn slice_text(chars: &Vec<char>, from: usize, to: usize) -> (text: String)
    requires
        from <= to <= chars@.len(),
    ensures
        text@ == chars@.subrange(from as int, to as int),
{
    let mut text: String = String::new();
    let mut i: usize = from;
    while i < to
        invariant
            from <= i <= to <= chars@.len(),
            text@ == chars@.subrange(from as int, i as int),
        decreases to - i,
    {
        text.push(chars[i]);
        i += 1;
    }
    text
}

/// Whether `pattern` stands at position `at`.
pub fn matches_at(chars: &Vec<char>, pattern: &Vec<char>, at: usize) -> (found: bool)
    ensures
        found == occurs_at(chars@, pattern@, at as int),
{
    if pattern.len() > chars.len() || at > chars.len() - pattern.len() {
        return false;
    }
    let mut i: usize = 0;
    while i < pattern.len()
        invariant
            i <= pattern@.len(),
            at + pattern.len() <= chars.len(),
            forall|j: int| 0 <= j < i ==> chars@[at + j] == pattern@[j],
        decreases pattern.len() - i,
    {
        if chars[at + i] != pattern[i] {
            return false;
        }
        i += 1;
    }
    assert(chars@.subrange(at as int, at + pattern@.len()) == pattern@);
    true
}

/// The leftmost position of `pattern`, counted from `from` on.
pub fn find_from(chars: &Vec<char>, pattern: &Vec<char>, from: usize) -> (found: Option<usize>)
    requires
        from <= chars@.len(),
    ensures
        match found {
            Some(i) => find(chars@.skip(from as int), pattern@) == Some(i as int) && from + i
                + pattern.len() <= chars.len(),
            None => find(chars@.skip(from as int), pattern@) is None,
        },
{
    let ghost tail = chars@.skip(from as int);
    let mut i: usize = from;
    loop
        invariant
            from <= i <= chars@.len(),
            tail == chars@.skip(from as int),
            forall|j: int| 0 <= j < i - from ==> !occurs_at(tail, pattern@, j),
        decreases chars@.len() - i,
    {
        assert(i + pattern@.len() <= chars@.len() ==> tail.subrange(
            i - from,
            i - from + pattern@.len(),
        ) == chars@.subrange(i as int, i + pattern@.len()));
        if matches_at(chars, pattern, i) {
            proof {
                lemma_find_is(tail, pattern@, i - from);
            }
            return Some(i - from);
        }
        if i == chars.len() {
            proof {
                lemma_find(tail, pattern@);
            }
            return None;
        }
        i += 1;
    }
}

/// `text` with the leftmost `pattern` replaced by `value`.
pub fn replace_once(text: &str, pattern: &str, value: &str) -> (replaced: String)
    ensures
        replaced@ == replaced_once(text@, pattern@, value@),
{
    let chars: Vec<char> = chars_of(text);
    let pattern_chars: Vec<char> = chars_of(pattern);
    assert(chars@.skip(0) == chars@);
    match find_from(&chars, &pattern_chars, 0) {
        Some(i) => {
            let mut replaced: String = slice_text(&chars, 0, i);
            replaced.append(value);
            let after: String = slice_text(&chars, i + pattern_chars.len(), chars.len());
            replaced.append(after.as_str());
            replaced
        },
        None => text.to_owned(),
    }
}

/// `parts` joined by `separator`.
pub fn join(parts: &Vec<String>, separator: &str) -> (text: String)
    ensures
        text@ == joined(texts(parts@), separator@),
{
    let mut text: String = String::new();
    let mut i: usize = 0;
    while i < parts.len()
        invariant
            i <= parts@.len(),
            text@ == joined(texts(parts@).take(i as int), separator@),
        decreases parts.len() - i,
    {
        assert(texts(parts@).take(i + 1).drop_last() == texts(parts@).take(i as int));
        if i > 0 {
            text.append(separator);
        }
        text.append(parts[i].as_str());
        i += 1;
    }
    assert(texts(parts@).take(i as int) == texts(parts@));
    text
}

/// Whether two strings hold the same characters.
pub fn same_text(a: &str, b: &str) -> (same: bool)
    ensures
        same == (a@ == b@),
{
    a.to_owned() == b.to_owned()
}

/// A found pattern stands where it is said to be found and nowhere further left, and a pattern
/// that is not found stands nowhere.
pub proof fn law_find_is_leftmost(text: Seq<char>, pattern: Seq<char>)
    ensures
        match find(text, pattern) {
            Some(i) => {
                &&& 0 <= i
                &&& i + pattern.len() <= text.len()
                &&& text.subrange(i, i + pattern.len()) == pattern
                &&& forall|j: int|
                    0 <= j < i ==> #[trigger] text.subrange(j, j + pattern.len()) != pattern
            },
            None => forall|j: int|
                0 <= j <= text.len() - pattern.len() ==> #[trigger] text.subrange(
                    j,
                    j + pattern.len(),
                ) != pattern,
        },
{
    lemma_find(text, pattern);
    if let Some(i) = find(text, pattern) {
        assert forall|j: int| 0 <= j < i implies #[trigger] text.subrange(j, j + pattern.len())
            != pattern by {
            assert(!occurs_at(text, pattern, j));
        }
    } else {
        assert forall|j: int|
            0 <= j <= text.len() - pattern.len() implies #[trigger] text.subrange(
            j,
            j + pattern.len(),
        ) != pattern by {
            assert(!occurs_at(text, pattern, j));
        }
    }
}

/// Replacing a pattern puts the value in its leftmost place and keeps all that is before and
/// behind it.
pub proof fn law_leftmost_is_replaced(
    before: Seq<char>,
    pattern: Seq<char>,
    after: Seq<char>,
    value: Seq<char>,
)
    requires
        forall|j: int|
            0 <= j < before.len() ==> #[trigger] (before + pattern + after).subrange(
                j,
                j + pattern.len(),
            ) != pattern,
    ensures
        replaced_once(before + pattern + after, pattern, value) == before + value + after,
{
    let text = before + pattern + after;
    let at = before.len() as int;
    law_find_is_leftmost(text, pattern);
    assert(text.subrange(at, at + pattern.len()) =~= pattern);
    assert(find(text, pattern) == Some(at));
    assert(text.take(at) =~= before);
    assert(text.skip(at + pattern.len()) =~= after);
}

/// A text without the pattern stays as it is.
pub proof fn law_nothing_is_replaced(text: Seq<char>, pattern: Seq<char>, value: Seq<char>)
    requires
        forall|j: int|
            0 <= j <= text.len() - pattern.len() ==> #[trigger] text.subrange(
                j,
                j + pattern.len(),
            ) != pattern,
    ensures
        replaced_once(text, pattern, value) == text,
{
    law_find_is_leftmost(text, pattern);
}

/// Joining nothing gives nothing, joining one part gives that part, and joining the parts of two
/// lists is joining each list and putting the separator between the two.
pub proof fn law_joined_parts(part: Seq<char>, separator: Seq<char>)
    ensures
        joined(Seq::empty(), separator) == Seq::<char>::empty(),
        joined(seq![part], separator) == part,
        forall|a: Seq<Seq<char>>, b: Seq<Seq<char>>|
            a.len() > 0 && b.len() > 0 ==> #[trigger] joined(a + b, separator) == joined(
                a,
                separator,
            ) + separator + joined(b, separator),
{
    assert forall|a: Seq<Seq<char>>, b: Seq<Seq<char>>| a.len() > 0 && b.len() > 0 implies (
    #[trigger] joined(a + b, separator)) == joined(a, separator) + separator + joined(
        b,
        separator,
    ) by {
        lemma_joined_concat(a, b, separator);
    }
}

proof fn lemma_joined_concat(a: Seq<Seq<char>>, b: Seq<Seq<char>>, separator: Seq<char>)
    requires
        a.len() > 0,
        b.len() > 0,
    ensures
        joined(a + b, separator) == joined(a, separator) + separator + joined(b, separator),
    decreases b.len(),
{
    assert((a + b).drop_last() =~= a + b.drop_last());
    if b.len() == 1 {
        assert(a + b.drop_last() =~= a);
    } else {
        lemma_joined_concat(a, b.drop_last(), separator);
    }
}

/// A list of strings is spoken of by the characters of each, and a pattern is said to stand where
/// its characters are.
pub proof fn law_texts_are_spoken_of_as_they_are(
    strings: Seq<String>,
    text: Seq<char>,
    pattern: Seq<char>,
    i: int,
)
    ensures
        texts(strings).len() == strings.len(),
        0 <= i < strings.len() ==> texts(strings)[i] == strings[i]@,
        occurs_at(text, pattern, i) <==> 0 <= i <= text.len() - pattern.len() && forall|k: int|
            0 <= k < pattern.len() ==> text[i + k] == #[trigger] pattern[k],
{
    if 0 <= i <= text.len() - pattern.len() {
        let part = text.subrange(i, i + pattern.len());
        if part == pattern {
            assert forall|k: int| 0 <= k < pattern.len() implies text[i + k]
                == #[trigger] pattern[k] by {
                assert(part[k] == text[i + k]);
            }
        }
        if forall|k: int| 0 <= k < pattern.len() ==> text[i + k] == #[trigger] pattern[k] {
            assert(part =~= pattern);
        }
    }
}

} // verus!
