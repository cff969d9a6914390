//! Absolute URLs, held as text, and the three operations on them that a
//! request needs. The `url` crate does the work; what is believed of it is
//! said at each of the three functions that call it, and is no more than a
//! name for what it hands back.

use vstd::prelude::*;

verus! {

#[verifier::external_type_specification]
#[verifier::external_body]
pub struct ExUrlParseError(url::ParseError);

/// The serialization of the URL that `url::Url::parse` reads from the input,
/// or `None` where it reports an error.
pub uninterp spec fn parsed_url(input: Seq<char>) -> Option<Seq<char>>;

/// The serialization of the URL that is read from the text, after
/// `url::PathSegmentsMut::push` has added the segment to its path; `None`
/// where the text does not read as a URL, and where the URL cannot be a base
/// and so has no path segments.
pub uninterp spec fn url_with_segment(url: Seq<char>, segment: Seq<char>) -> Option<Seq<char>>;

/// The serialization of the URL that is read from the text, after
/// `url::Url::set_query` has given it the query; `None` where the text does
/// not read as a URL.
pub uninterp spec fn url_with_query(url: Seq<char>, query: Seq<char>) -> Option<Seq<char>>;

/// The longest text, in characters, that an operation on an address takes.
/// The `url` crate counts the bytes of a URL in 32 bits, and its setters
/// stop the program beyond that. Reading and escaping make a few bytes of
/// each character; this length leaves room for 128 bytes for each character
/// of an address and of what is added to it.
pub const MAX_TEXT: usize = 0x00FF_FFFF;

/// Calls `url::Url::parse` and keeps the serialization of the URL. The
/// contract gives the outcome its name.
#[verifier::external_body]
pub(crate) fn parse_url(input: &str) -> (outcome: Result<String, url::ParseError>)
    ensures
        match outcome {
            Ok(address) => parsed_url(input@) == Some(address@),
            Err(_) => parsed_url(input@) is None,
        },
{
    url::Url::parse(input).map(String::from)
}

/// Reads the address with `url::Url::parse`, calls
/// `url::Url::path_segments_mut` and then `push` on the URL, and keeps its
/// serialization. Where the address does not read, or the URL cannot be a
/// base, the address stays as it is. The contract gives the new
/// serialization its name.
#[verifier::external_body]
pub(crate) fn push_segment(address: &mut String, segment: &str) -> (pushed: bool)
    requires
        old(address)@.len() <= MAX_TEXT,
        segment@.len() <= MAX_TEXT,
    ensures
        match url_with_segment(old(address)@, segment@) {
            Some(text) => pushed && final(address)@ == text,
            None => !pushed && final(address)@ == old(address)@,
        },
{
    let mut url = match url::Url::parse(address.as_str()) {
        Ok(url) => url,
        Err(_) => return false,
    };
    match url.path_segments_mut() {
        Ok(mut path) => {
            path.push(segment);
        },
        Err(()) => return false,
    }
    *address = String::from(url);
    true
}

/// Reads the address with `url::Url::parse`, calls `url::Url::set_query` on
/// the URL, and keeps its serialization. Where the address does not read it
/// stays as it is. The contract gives the new serialization its name.
#[verifier::external_body]
pub(crate) fn put_query(address: &mut String, query: &str) -> (put: bool)
    requires
        old(address)@.len() <= MAX_TEXT,
        query@.len() <= MAX_TEXT,
    ensures
        match url_with_query(old(address)@, query@) {
            Some(text) => put && final(address)@ == text,
            None => !put && final(address)@ == old(address)@,
        },
{
    let mut url = match url::Url::parse(address.as_str()) {
        Ok(url) => url,
        Err(_) => return false,
    };
    url.set_query(Some(query));
    *address = String::from(url);
    true
}

} // verus!
