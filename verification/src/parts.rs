//! The parts of a URL, read off its text: where the path, the query and the
//! fragment begin, and what the path and the query hold.

use vstd::prelude::*;
use vstd::string::*;
use vstd::utf8::*;

verus! {

/// The first place from `from` up to `to` at which the text holds `mark`;
/// `to` where it holds none there.
pub open spec fn first_in(text: Seq<char>, mark: char, from: int, to: int) -> int
    decreases to - from,
{
    if from >= to {
        to
    } else if text[from] == mark {
        from
    } else {
        first_in(text, mark, from + 1, to)
    }
}

/// Where the fragment begins: at the first number sign, or at the end.
pub open spec fn fragment_at(url: Seq<char>) -> int {
    first_in(url, '#', 0, url.len() as int)
}

/// Where the query begins: at the first question mark before the fragment,
/// or at the fragment.
pub open spec fn query_at(url: Seq<char>) -> int {
    first_in(url, '?', 0, fragment_at(url))
}

/// Where the scheme ends: at the first colon before the query, or at the
/// query.
pub open spec fn scheme_at(url: Seq<char>) -> int {
    first_in(url, ':', 0, query_at(url))
}

/// Whether two slashes follow the scheme, and so an authority.
pub open spec fn has_authority(url: Seq<char>) -> bool {
    &&& scheme_at(url) + 2 < query_at(url)
    &&& url[scheme_at(url) + 1] == '/'
    &&& url[scheme_at(url) + 2] == '/'
}

/// Where the path begins: after the authority where there is one, and else
/// after the scheme.
pub open spec fn path_at(url: Seq<char>) -> int {
    if has_authority(url) {
        first_in(url, '/', scheme_at(url) + 3, query_at(url))
    } else if scheme_at(url) < query_at(url) {
        scheme_at(url) + 1
    } else {
        query_at(url)
    }
}

/// The path of a URL.
pub open spec fn path_of(url: Seq<char>) -> Seq<char> {
    url.subrange(path_at(url), query_at(url))
}

/// The query of a URL, without its question mark; `None` where it has none.
pub open spec fn query_of(url: Seq<char>) -> Option<Seq<char>> {
    if query_at(url) < fragment_at(url) {
        Some(url.subrange(query_at(url) + 1, fragment_at(url)))
    } else {
        None
    }
}

/// Whether `text` ends in `suffix`.
pub open spec fn ends_with(text: Seq<char>, suffix: Seq<char>) -> bool {
    suffix.len() <= text.len() && text.subrange(text.len() - suffix.len(), text.len() as int)
        == suffix
}

/// Whether the path of a URL ends in a slash and the segment, and its query
/// is exactly the given one.
pub open spec fn has_segment_and_query(url: Seq<char>, segment: Seq<char>, query: Seq<char>) -> bool {
    ends_with(path_of(url), seq!['/'] + segment) && query_of(url) == Some(query)
}

/// The first place of a mark lies in the range that was searched.
pub proof fn lemma_first_in_range(text: Seq<char>, mark: char, from: int, to: int)
    requires
        from <= to,
    ensures
        from <= first_in(text, mark, from, to) <= to,
    decreases to - from,
{
    if from < to && text[from] != mark {
        lemma_first_in_range(text, mark, from + 1, to);
    }
}

/// The characters of a text whose characters are all ASCII.
pub fn chars_of(text: &str) -> (chars: Vec<char>)
    requires
        is_ascii_chars(text@),
    ensures
        chars@ == text@,
{
    let bytes = text.as_bytes();
    proof {
        assert(is_ascii(text));
        is_ascii_spec_bytes(text);
    }
    let mut chars: Vec<char> = Vec::new();
    let mut at: usize = 0;
    while at < bytes.len()
        invariant
            is_ascii_chars(text@),
            bytes@ == text.spec_bytes(),
            bytes@.len() == text@.len(),
            at <= bytes.len(),
            chars@.len() == at,
            forall|seen: int| 0 <= seen < bytes@.len() ==> bytes@[seen] == text@[seen] as u8,
            forall|seen: int| 0 <= seen < at ==> chars@[seen] == text@[seen],
        decreases bytes.len() - at,
    {
        assert('\0' <= text@[at as int] <= '\u{7f}');
        chars.push(bytes[at] as char);
        at += 1;
    }
    assert(chars@ =~= text@);
    chars
}

/// Finds the first place from `from` up to `to` at which the text holds
/// `mark`.
pub fn find(text: &Vec<char>, mark: char, from: usize, to: usize) -> (at: usize)
    requires
        from <= to <= text.len(),
    ensures
        at == first_in(text@, mark, from as int, to as int),
        from <= at <= to,
{
    let mut at: usize = from;
    while at < to && text[at] != mark
        invariant
            from <= at <= to <= text.len(),
            first_in(text@, mark, from as int, to as int) == first_in(
                text@,
                mark,
                at as int,
                to as int,
            ),
        decreases to - at,
    {
        at += 1;
    }
    at
}

/// Whether the text holds, from `from` up to `to`, exactly the other text.
pub fn same_range(text: &Vec<char>, from: usize, to: usize, other: &Vec<char>) -> (same: bool)
    requires
        from <= to <= text.len(),
    ensures
        same == (text@.subrange(from as int, to as int) == other@),
{
    if other.len() != to - from {
        return false;
    }
    let mut at: usize = 0;
    while at < other.len()
        invariant
            from <= to <= text.len(),
            other.len() == to - from,
            at <= other.len(),
            forall|seen: int| 0 <= seen < at ==> text@[from + seen] == other@[seen],
        decreases other.len() - at,
    {
        if text[from + at] != other[at] {
            assert(text@.subrange(from as int, to as int)[at as int] != other@[at as int]);
            return false;
        }
        at += 1;
    }
    assert(text@.subrange(from as int, to as int) =~= other@);
    true
}

/// Decides whether the path of a URL ends in a slash and the segment, and
/// its query is exactly the given one.
pub fn check_segment_and_query(url: &Vec<char>, segment: &Vec<char>, query: &Vec<char>) -> (holds:
    bool)
    ensures
        holds == has_segment_and_query(url@, segment@, query@),
{
    let fragment = find(url, '#', 0, url.len());
    let mark = find(url, '?', 0, fragment);
    let colon = find(url, ':', 0, mark);
    let path = if colon < mark && mark - colon > 2 && url[colon + 1] == '/' && url[colon + 2]
        == '/' {
        find(url, '/', colon + 3, mark)
    } else if colon < mark {
        colon + 1
    } else {
        mark
    };
    assert(path == path_at(url@));
    if mark >= fragment || !same_range(url, mark + 1, fragment, query) {
        return false;
    }
    if segment.len() >= mark - path {
        return false;
    }
    let slash = mark - segment.len() - 1;
    let ghost suffix = seq!['/'] + segment@;
    let ghost tail = path_of(url@).subrange(path_of(url@).len() - suffix.len(), path_of(url@).len() as int);
    if url[slash] != '/' {
        assert(tail[0] == url@[slash as int]);
        return false;
    }
    let same = same_range(url, slash + 1, mark, segment);
    proof {
        if same {
            assert(tail =~= suffix);
        } else {
            assert(url@.subrange(slash + 1, mark as int) =~= tail.subrange(1, tail.len() as int));
            assert(segment@ =~= suffix.subrange(1, suffix.len() as int));
        }
    }
    same
}

} // verus!
