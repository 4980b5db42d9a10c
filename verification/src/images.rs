//! The pictures that a message body refers to.
use vstd::prelude::*;
use crate::text::{
    chars_of, find, find_from, is_first_occurrence, lemma_find, lemma_find_is, matches_at,
    occurs_at, slice_text, starts_with, texts,
};

verus! {

/// The address of something on the web.
pub open spec fn is_web_url(url: Seq<char>) -> bool {
    starts_with(url, "http://"@) || starts_with(url, "https://"@)
}

/// The first image of `markdown` and what follows it: the text between the `](` after the
/// first `![` and the next `)`, and the text behind that `)`.
pub open spec fn first_image(markdown: Seq<char>) -> Option<(Seq<char>, Seq<char>)> {
    match find(markdown, "!["@) {
        Some(start) => match find(markdown.skip(start), "]("@) {
            Some(open) => {
                let url_start = markdown.skip(start + open + 2);
                match find(url_start, ")"@) {
                    Some(end) => Some((url_start.take(end), url_start.skip(end + 1))),
                    None => None,
                }
            },
            None => None,
        },
        None => None,
    }
}

/// The addresses of the images in `markdown` that are on the web, in order.
pub open spec fn image_urls(markdown: Seq<char>) -> Seq<Seq<char>>
    decreases markdown.len(),
{
    match first_image(markdown) {
        Some((url, rest)) => {
            proof {
                lemma_first_image(markdown);
            }
            if is_web_url(url) {
                seq![url] + image_urls(rest)
            } else {
                image_urls(rest)
            }
        },
        None => Seq::empty(),
    }
}

/// Where an image is found, it ends at a `)` that its address does not hold, and the text
/// behind it is shorter than the whole.
pub proof fn lemma_first_image(markdown: Seq<char>)
    ensures
        first_image(markdown) matches Some((url, rest)) ==> {
            &&& rest.len() < markdown.len()
            &&& !url.contains(')')
            &&& exists|at: int|
                {
                    &&& occurs_at(markdown, "]("@ + url + ")"@, at)
                    &&& rest == markdown.skip(at + url.len() + 3)
                }
        },
{
    reveal_strlit("](");
    reveal_strlit(")");
    lemma_find(markdown, "!["@);
    if let Some(start) = find(markdown, "!["@) {
        let tail = markdown.skip(start);
        lemma_find(tail, "]("@);
        if let Some(open) = find(tail, "]("@) {
            let url_start = markdown.skip(start + open + 2);
            lemma_find(url_start, ")"@);
            if let Some(end) = find(url_start, ")"@) {
                let url = url_start.take(end);
                if url.contains(')') {
                    let i = choose|i: int| 0 <= i < url.len() && url[i] == ')';
                    assert(url_start.subrange(i, i + 1) == ")"@);
                    assert(occurs_at(url_start, ")"@, i));
                }
                let at = start + open;
                let image = "]("@ + url + ")"@;
                assert(markdown.subrange(at, at + image.len()) =~= image);
                assert(occurs_at(markdown, image, at));
            }
        }
    }
}

/// Whether a list of characters is the address of something on the web.
fn is_web_address(chars: &Vec<char>, from: usize, to: usize) -> (web: bool)
    requires
        from <= to <= chars@.len(),
    ensures
        web == is_web_url(chars@.subrange(from as int, to as int)),
{
    let url: String = slice_text(chars, from, to);
    let url_chars: Vec<char> = chars_of(url.as_str());
    let http: Vec<char> = chars_of("http://");
    let https: Vec<char> = chars_of("https://");
    matches_at(&url_chars, &http, 0) || matches_at(&url_chars, &https, 0)
}

/// The addresses of the images in a Markdown text that are on the web.
pub fn markdown_image_urls(markdown: &str) -> (urls: Vec<String>)
    ensures
        texts(urls@) == image_urls(markdown@),
{
    let chars: Vec<char> = chars_of(markdown);
    let bang: Vec<char> = chars_of("![");
    let bracket: Vec<char> = chars_of("](");
    let paren: Vec<char> = chars_of(")");
    proof {
        reveal_strlit("](");
        reveal_strlit(")");
        assert(chars@.skip(0) == chars@);
    }
    let mut urls: Vec<String> = Vec::new();
    let mut rest: usize = 0;
    loop
        invariant
            rest <= chars@.len(),
            chars@ == markdown@,
            bang@ == "!["@,
            bracket@ == "]("@,
            bracket@.len() == 2,
            paren@ == ")"@,
            paren@.len() == 1,
            texts(urls@) + image_urls(chars@.skip(rest as int)) == image_urls(markdown@),
        decreases chars@.len() - rest,
    {
        let ghost tail = chars@.skip(rest as int);
        let Some(start) = find_from(&chars, &bang, rest) else {
            return urls;
        };
        assert(tail.skip(start as int) == chars@.skip(rest + start));
        let Some(open) = find_from(&chars, &bracket, rest + start) else {
            return urls;
        };
        let url_start: usize = rest + start + open + 2;
        assert(tail.skip(start + open + 2) == chars@.skip(url_start as int));
        let Some(end) = find_from(&chars, &paren, url_start) else {
            return urls;
        };
        let ghost url = chars@.subrange(url_start as int, url_start + end);
        assert(first_image(tail) == Some((url, chars@.skip(url_start + end + 1))));
        if is_web_address(&chars, url_start, url_start + end) {
            let text: String = slice_text(&chars, url_start, url_start + end);
            urls.push(text);
        }
        rest = url_start + end + 1;
    }
}

/// Every address that is found is on the web, holds no `)` and stands in the text as the
/// target of an image, between `](` and `)`.
pub proof fn law_image_urls_are_web_targets(markdown: Seq<char>, i: int)
    requires
        0 <= i < image_urls(markdown).len(),
    ensures
        is_web_url(image_urls(markdown)[i]),
        !image_urls(markdown)[i].contains(')'),
        exists|at: int| occurs_at(markdown, "]("@ + image_urls(markdown)[i] + ")"@, at),
    decreases markdown.len(),
{
    lemma_first_image(markdown);
    if let Some((url, rest)) = first_image(markdown) {
        let at = choose|at: int|
            {
                &&& occurs_at(markdown, "]("@ + url + ")"@, at)
                &&& rest == markdown.skip(at + url.len() + 3)
            };
        let first = if is_web_url(url) {
            1int
        } else {
            0
        };
        if i >= first {
            law_image_urls_are_web_targets(rest, i - first);
            let found = image_urls(rest)[i - first];
            let image = "]("@ + found + ")"@;
            let k = choose|k: int| occurs_at(rest, image, k);
            reveal_strlit("](");
            reveal_strlit(")");
            let there = at + url.len() + 3;
            assert(rest.subrange(k, k + image.len()) =~= markdown.subrange(
                there + k,
                there + k + image.len(),
            ));
            assert(occurs_at(markdown, image, there + k));
        }
    }
}

/// `starts` says where in `markdown` the addresses `urls` stand, each as the target of an image:
/// one behind the other, without overlapping.
pub open spec fn stand_in_order(
    markdown: Seq<char>,
    urls: Seq<Seq<char>>,
    starts: Seq<int>,
) -> bool {
    &&& starts.len() == urls.len()
    &&& forall|i: int|
        0 <= i < urls.len() ==> occurs_at(
            markdown,
            "]("@ + (#[trigger] urls[i]) + ")"@,
            starts[i] - 2,
        )
    &&& forall|i: int, j: int|
        0 <= i < j < urls.len() ==> (#[trigger] starts[i]) + urls[i].len() < #[trigger] starts[j]
}

/// The addresses that are found stand in the text in the order in which they are listed, and
/// no two of them overlap.
pub proof fn law_image_urls_stand_in_order(markdown: Seq<char>)
    ensures
        exists|starts: Seq<int>| stand_in_order(markdown, image_urls(markdown), starts),
    decreases markdown.len(),
{
    let urls = image_urls(markdown);
    lemma_first_image(markdown);
    match first_image(markdown) {
        Some((url, rest)) => {
            reveal_strlit("](");
            reveal_strlit(")");
            let at = choose|at: int|
                {
                    &&& occurs_at(markdown, "]("@ + url + ")"@, at)
                    &&& rest == markdown.skip(at + url.len() + 3)
                };
            let there = at + url.len() + 3;
            law_image_urls_stand_in_order(rest);
            let later = image_urls(rest);
            let behind = choose|starts: Seq<int>| stand_in_order(rest, later, starts);
            let shifted = behind.map_values(|start: int| there + start);
            assert forall|i: int| 0 <= i < later.len() implies occurs_at(
                markdown,
                "]("@ + (#[trigger] later[i]) + ")"@,
                shifted[i] - 2,
            ) by {
                let image = "]("@ + later[i] + ")"@;
                let k = behind[i] - 2;
                assert(occurs_at(rest, image, k));
                assert(rest.subrange(k, k + image.len()) =~= markdown.subrange(
                    there + k,
                    there + k + image.len(),
                ));
            }
            if is_web_url(url) {
                let starts = seq![at + 2] + shifted;
                assert forall|i: int| 0 <= i < urls.len() implies occurs_at(
                    markdown,
                    "]("@ + (#[trigger] urls[i]) + ")"@,
                    starts[i] - 2,
                ) by {
                    if i > 0 {
                        assert(urls[i] == later[i - 1]);
                        assert(starts[i] == shifted[i - 1]);
                    }
                }
                assert forall|i: int, j: int| 0 <= i < j < urls.len() implies (
                #[trigger] starts[i]) + urls[i].len() < #[trigger] starts[j] by {
                    assert(starts[j] == there + behind[j - 1]);
                    assert(occurs_at(rest, "]("@ + later[j - 1] + ")"@, behind[j - 1] - 2));
                    if i > 0 {
                        assert(starts[i] == there + behind[i - 1]);
                        assert(urls[i] == later[i - 1]);
                    }
                }
                assert(stand_in_order(markdown, urls, starts));
            } else {
                assert(stand_in_order(markdown, urls, shifted));
            }
        },
        None => {
            assert(stand_in_order(markdown, urls, Seq::empty()));
        },
    }
}

/// A leftmost position stays the leftmost one when something is appended.
proof fn lemma_find_extends(text: Seq<char>, pattern: Seq<char>, i: int, more: Seq<char>)
    requires
        is_first_occurrence(text, pattern, i),
    ensures
        find(text + more, pattern) == Some(i),
{
    let whole = text + more;
    assert(whole.subrange(i, i + pattern.len()) =~= text.subrange(i, i + pattern.len()));
    assert forall|j: int| 0 <= j < i implies !occurs_at(whole, pattern, j) by {
        assert(whole.subrange(j, j + pattern.len()) =~= text.subrange(j, j + pattern.len()));
        assert(!occurs_at(text, pattern, j));
    }
    lemma_find_is(whole, pattern, i);
}

/// An image is found: where `![`, `](` and `)` stand around its description and its address,
/// and none of them earlier than there, the address comes first if it is on the web and is
/// passed over if it is not, and the search goes on behind the image.
pub proof fn law_image_is_found(
    before: Seq<char>,
    description: Seq<char>,
    url: Seq<char>,
    rest: Seq<char>,
)
    requires
        is_first_occurrence(before + "!["@, "!["@, before.len() as int),
        is_first_occurrence("!["@ + description + "]("@, "]("@, description.len() + 2int),
        !url.contains(')'),
    ensures
        image_urls(before + "!["@ + description + "]("@ + url + ")"@ + rest) == (if is_web_url(
            url,
        ) {
            seq![url]
        } else {
            Seq::empty()
        }) + image_urls(rest),
{
    reveal_strlit("![");
    reveal_strlit("](");
    reveal_strlit(")");
    let text = before + "!["@ + description + "]("@ + url + ")"@ + rest;
    let start = before.len() as int;
    let open = description.len() + 2int;
    lemma_find_extends(before + "!["@, "!["@, start, description + "]("@ + url + ")"@ + rest);
    assert((before + "!["@) + (description + "]("@ + url + ")"@ + rest) =~= text);
    lemma_find_extends("!["@ + description + "]("@, "]("@, open, url + ")"@ + rest);
    assert(("!["@ + description + "]("@) + (url + ")"@ + rest) =~= text.skip(start));
    let tail = text.skip(start + open + 2);
    assert(tail.subrange(url.len() as int, url.len() + 1int) =~= ")"@);
    assert forall|j: int| 0 <= j < url.len() implies !occurs_at(tail, ")"@, j) by {
        if occurs_at(tail, ")"@, j) {
            assert(tail.subrange(j, j + 1)[0] == ')');
        }
    }
    lemma_find_is(tail, ")"@, url.len() as int);
    assert(tail.take(url.len() as int) =~= url);
    assert(tail.skip(url.len() + 1int) =~= rest);
}

/// A text without `![` refers to no picture.
pub proof fn law_no_image_syntax_no_urls(markdown: Seq<char>)
    requires
        forall|i: int| !occurs_at(markdown, "!["@, i),
    ensures
        image_urls(markdown) == Seq::<Seq<char>>::empty(),
{
    lemma_find(markdown, "!["@);
}

/// An image whose address is `http://` or `https://` and anything but a `)` is listed, whatever
/// that is: where the image is the first one in the text, its address comes first and whole.
pub proof fn law_web_images_are_listed_whole(
    before: Seq<char>,
    description: Seq<char>,
    tail: Seq<char>,
    rest: Seq<char>,
)
    requires
        forall|j: int|
            0 <= j < before.len() ==> #[trigger] (before + "!["@).subrange(j, j + 2) != "!["@,
        forall|j: int|
            0 <= j < description.len() + 2 ==> #[trigger] ("!["@ + description + "]("@).subrange(
                j,
                j + 2,
            ) != "]("@,
        !tail.contains(')'),
    ensures
        image_urls(
            before + "!["@ + description + "]("@ + ("http://"@ + tail) + ")"@ + rest,
        ) == seq!["http://"@ + tail] + image_urls(rest),
        image_urls(
            before + "!["@ + description + "]("@ + ("https://"@ + tail) + ")"@ + rest,
        ) == seq!["https://"@ + tail] + image_urls(rest),
{
    reveal_strlit("http://");
    reveal_strlit("https://");
    lemma_delimiters(before, description);
    let http = "http://"@ + tail;
    let https = "https://"@ + tail;
    lemma_no_paren("http://"@, tail);
    lemma_no_paren("https://"@, tail);
    assert(http.subrange(0, 7) =~= "http://"@);
    assert(https.subrange(0, 8) =~= "https://"@);
    law_image_is_found(before, description, http, rest);
    law_image_is_found(before, description, https, rest);
}

/// An image whose address begins otherwise is passed over.
pub proof fn law_other_images_are_passed_over(
    before: Seq<char>,
    description: Seq<char>,
    url: Seq<char>,
    rest: Seq<char>,
)
    requires
        forall|j: int|
            0 <= j < before.len() ==> #[trigger] (before + "!["@).subrange(j, j + 2) != "!["@,
        forall|j: int|
            0 <= j < description.len() + 2 ==> #[trigger] ("!["@ + description + "]("@).subrange(
                j,
                j + 2,
            ) != "]("@,
        !url.contains(')'),
        url.len() < 7 || url.take(7) != "http://"@,
        url.len() < 8 || url.take(8) != "https://"@,
    ensures
        image_urls(before + "!["@ + description + "]("@ + url + ")"@ + rest) == image_urls(rest),
{
    reveal_strlit("http://");
    reveal_strlit("https://");
    lemma_delimiters(before, description);
    if url.len() >= 7 {
        assert(url.subrange(0, 7) =~= url.take(7));
    }
    if url.len() >= 8 {
        assert(url.subrange(0, 8) =~= url.take(8));
    }
    law_image_is_found(before, description, url, rest);
}

/// Every address that is listed begins with `http://` or `https://`.
pub proof fn law_listed_addresses_begin_as_web_addresses(markdown: Seq<char>, i: int)
    requires
        0 <= i < image_urls(markdown).len(),
    ensures
        ({
            let url = image_urls(markdown)[i];
            ||| url.len() >= 7 && url.take(7) == "http://"@
            ||| url.len() >= 8 && url.take(8) == "https://"@
        }),
{
    reveal_strlit("http://");
    reveal_strlit("https://");
    law_image_urls_are_web_targets(markdown, i);
    let url = image_urls(markdown)[i];
    if url.len() >= 7 {
        assert(url.subrange(0, 7) =~= url.take(7));
    }
    if url.len() >= 8 {
        assert(url.subrange(0, 8) =~= url.take(8));
    }
}

/// Where the text ends before an image does, nothing more is listed: without a `![`, without a
/// `](` behind the first `![`, and without a `)` behind the first `](` there.
pub proof fn law_unfinished_images_are_not_listed(
    before: Seq<char>,
    description: Seq<char>,
    tail: Seq<char>,
)
    requires
        forall|j: int|
            0 <= j < before.len() ==> #[trigger] (before + "!["@).subrange(j, j + 2) != "!["@,
        forall|j: int|
            0 <= j < description.len() + 2 ==> #[trigger] ("!["@ + description + "]("@).subrange(
                j,
                j + 2,
            ) != "]("@,
        !tail.contains(')'),
    ensures
        image_urls(before) == Seq::<Seq<char>>::empty(),
        image_urls(before + "!["@ + description) == Seq::<Seq<char>>::empty(),
        image_urls(before + "!["@ + description + "]("@ + tail) == Seq::<Seq<char>>::empty(),
{
    reveal_strlit("![");
    reveal_strlit("](");
    reveal_strlit(")");
    lemma_delimiters(before, description);
    assert forall|j: int| !occurs_at(before, "!["@, j) by {
        if occurs_at(before, "!["@, j) {
            assert((before + "!["@).subrange(j, j + 2) =~= before.subrange(j, j + 2));
        }
    }
    law_no_image_syntax_no_urls(before);
    let start = before.len() as int;
    let open = description.len() + 2int;
    let short = before + "!["@ + description;
    lemma_find_extends(before + "!["@, "!["@, start, description);
    assert(short =~= (before + "!["@) + description);
    assert(short.skip(start) =~= "!["@ + description);
    lemma_find(short.skip(start), "]("@);
    if let Some(i) = find(short.skip(start), "]("@) {
        assert(occurs_at("!["@ + description, "]("@, i));
        assert(("!["@ + description + "]("@).subrange(i, i + 2) =~= ("!["@
            + description).subrange(i, i + 2));
    }
    let long = before + "!["@ + description + "]("@ + tail;
    lemma_find_extends(before + "!["@, "!["@, start, description + "]("@ + tail);
    assert(long =~= (before + "!["@) + (description + "]("@ + tail));
    lemma_find_extends("!["@ + description + "]("@, "]("@, open, tail);
    assert(long.skip(start) =~= ("!["@ + description + "]("@) + tail);
    assert(long.skip(start + open + 2) =~= tail);
    lemma_find(tail, ")"@);
    if let Some(i) = find(tail, ")"@) {
        assert(tail.subrange(i, i + 1)[0] == ')');
        assert(tail[i] == ')');
    }
}

/// The delimiters of the first image stand where they are written.
proof fn lemma_delimiters(before: Seq<char>, description: Seq<char>)
    requires
        forall|j: int|
            0 <= j < before.len() ==> #[trigger] (before + "!["@).subrange(j, j + 2) != "!["@,
        forall|j: int|
            0 <= j < description.len() + 2 ==> #[trigger] ("!["@ + description + "]("@).subrange(
                j,
                j + 2,
            ) != "]("@,
    ensures
        is_first_occurrence(before + "!["@, "!["@, before.len() as int),
        is_first_occurrence("!["@ + description + "]("@, "]("@, description.len() + 2int),
{
    reveal_strlit("![");
    reveal_strlit("](");
    let at = before.len() as int;
    assert((before + "!["@).subrange(at, at + 2) =~= "!["@);
    let open = description.len() + 2int;
    assert(("!["@ + description + "]("@).subrange(open, open + 2) =~= "]("@);
}

proof fn lemma_no_paren(scheme: Seq<char>, tail: Seq<char>)
    requires
        !scheme.contains(')'),
        !tail.contains(')'),
    ensures
        !(scheme + tail).contains(')'),
{
    let url = scheme + tail;
    if url.contains(')') {
        let i = choose|i: int| 0 <= i < url.len() && url[i] == ')';
        if i < scheme.len() {
            assert(scheme[i] == ')');
        } else {
            assert(tail[i - scheme.len()] == ')');
        }
    }
}

} // verus!
