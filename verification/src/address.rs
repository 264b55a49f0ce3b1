//! URLs as text, checked and normalised by the `url` crate.

use crate::text::text_len;
use vstd::prelude::*;

verus! {

/// The longest address, and the longest query, in characters, that are handed on for
/// the query to be attached to the address.
pub const MAX_URL_CHARS: usize = 0x0100_0000;

/// What `url::Url::parse` makes of a text: the serialisation of the URL it read, or `None`
/// where it refuses the text.
pub uninterp spec fn parsed_url(text: Seq<char>) -> Option<Seq<char>>;

/// What is left when `url::Url::set_query` has given the URL read from `base` the query
/// `query`: the serialisation of the changed URL, or `None` where `base` is refused.
pub uninterp spec fn url_with_query(base: Seq<char>, query: Seq<char>) -> Option<Seq<char>>;

/// Calls `url::Url::parse` and hands back the serialisation of the URL, or `None` where
/// the parser returns an error. Nothing is claimed of the serialisation but that it is
/// the same for the same text.
#[verifier::external_body]
fn read_url(text: &str) -> (parsed: Option<String>)
    ensures
        parsed is Some <==> parsed_url(text@) is Some,
        parsed is Some ==> parsed->0@ == parsed_url(text@)->0,
{
    url::Url::parse(text).ok().map(String::from)
}

/// Reads `base` with `url::Url::parse`, replaces its query by `url::Url::set_query`, and
/// hands back the serialisation, or `None` where the parser returns an error. `set_query`
/// keeps positions in the serialisation in 32 bits, and fails where what it has written,
/// address, query and fragment together, is longer: hence the bounds on both lengths.
#[verifier::external_body]
fn attach_query(base: &str, query: &str) -> (made: Option<String>)
    requires
        base@.len() <= MAX_URL_CHARS,
        query@.len() <= MAX_URL_CHARS,
    ensures
        made is Some <==> url_with_query(base@, query@) is Some,
        made is Some ==> made->0@ == url_with_query(base@, query@)->0,
{
    let mut url = url::Url::parse(base).ok()?;
    url.set_query(Some(query));
    Some(String::from(url))
}

/// The normal form of the URL written in `text`, or `None` where it is no URL.
pub fn parse_url(text: &str) -> (parsed: Option<String>)
    ensures
        parsed is Some <==> parsed_url(text@) is Some,
        parsed is Some ==> parsed->0@ == parsed_url(text@)->0,
{
    read_url(text)
}

/// Whether an address and a query are short enough for the query to be attached.
pub open spec fn attachable(base: Seq<char>, query: Seq<char>) -> bool {
    base.len() <= MAX_URL_CHARS && query.len() <= MAX_URL_CHARS
}

/// The URL written in `base` with its query replaced by `query`, in normal form. `None`
/// where `base` is no URL, or where `base` or `query` is longer than `MAX_URL_CHARS`.
pub fn with_query(base: &str, query: &str) -> (made: Option<String>)
    ensures
        made is Some <==> attachable(base@, query@) && url_with_query(base@, query@) is Some,
        made is Some ==> made->0@ == url_with_query(base@, query@)->0,
{
    if text_len(base) <= MAX_URL_CHARS && text_len(query) <= MAX_URL_CHARS {
        attach_query(base, query)
    } else {
        None
    }
}

} // verus!
