use crate::error::PointercrateError;
use vstd::prelude::*;
use vstd::string::StringExecFns;

verus! {

/// The error with which `serde_urlencoded` turns a value down. The library only
/// takes note that there was one.
#[verifier::external_type_specification]
#[verifier::external_body]
pub struct ExEncodingError(serde_urlencoded::ser::Error);

/// The query string that `serde_urlencoded` makes of the parameters of a page, or
/// of no page at all; nothing where it turns them down.
pub uninterp spec fn urlencoded(page: Option<Seq<(Seq<char>, Seq<char>)>>) -> Option<Seq<char>>;

/// Calls `serde_urlencoded::to_string` on the parameters of a page, each a name
/// and a value, or on no page.
///
/// What comes back is taken to depend on the parameters alone, and is called
/// `urlencoded` of them. Of no page the encoder makes the empty string: it is
/// handed nothing to write and returns the buffer as it made it.
#[verifier::external_body]
fn encode_query(page: &Option<Vec<(String, String)>>) -> (result: Result<
    String,
    serde_urlencoded::ser::Error,
>)
    ensures
        match result {
            Ok(query) => urlencoded(page.deep_view()) == Some(query@),
            Err(_) => urlencoded(page.deep_view()) is None,
        },
        page is None ==> result is Ok && result->Ok_0@ == Seq::<char>::empty(),
{
    serde_urlencoded::to_string(page)
}

/// A page of a listing: what is listed, how much of it, and from where on. What
/// is listed stands in the order of its keys, and a page is found by the keys
/// between which it lies, not by counting.
pub trait Paginatable: Sized {
    /// What the pages of the listing hold.
    type Result;

    /// A page of the same listing with as many items: the one that lies above the
    /// key `after` and below the key `before`, as far as these are given.
    spec fn spec_window(&self, after: Option<i32>, before: Option<i32>) -> Self;

    fn window(&self, after: Option<i32>, before: Option<i32>) -> (page: Self)
        ensures
            page == self.spec_window(after, before),
    ;

    /// The parameters of the query that asks for this page, each a name and a
    /// value, in their order.
    spec fn params(&self) -> Seq<(Seq<char>, Seq<char>)>;

    fn query_pairs(&self) -> (pairs: Vec<(String, String)>)
        ensures
            pairs.deep_view() == self.params(),
    ;
}

/// The parameters of `page`, where there is a page.
pub open spec fn params_of<P: Paginatable>(page: Option<P>) -> Option<Seq<(Seq<char>, Seq<char>)>> {
    match page {
        Some(page) => Some(page.params()),
        None => None,
    }
}

/// The links of a page to the pages around it: the first and the last page of the
/// listing, and the pages before and after this one. A page that is not there has
/// no link.
#[derive(Debug, PartialEq, Eq)]
pub struct Navigation<P> {
    pub first: Option<P>,
    pub prev: Option<P>,
    pub next: Option<P>,
    pub last: Option<P>,
}

/// The text of the header that names the four links, each of them given as a
/// query string.
pub open spec fn link_header(
    first: Seq<char>,
    prev: Seq<char>,
    next: Seq<char>,
    last: Seq<char>,
) -> Seq<char> {
    "<"@ + first + ">; rel=first,<"@ + prev + ">; rel=prev,<"@ + next + ">; rel=next,<"@ + last
        + ">; rel=last"@
}

/// Writes the header that names the four links, each of them given as a query
/// string. A link that is not there is given as the empty string.
pub fn write_link_header(first: &str, prev: &str, next: &str, last: &str) -> (header: String)
    ensures
        header@ == link_header(first@, prev@, next@, last@),
{
    let mut header = String::from_str("<");
    header.append(first);
    header.append(">; rel=first,<");
    header.append(prev);
    header.append(">; rel=prev,<");
    header.append(next);
    header.append(">; rel=next,<");
    header.append(last);
    header.append(">; rel=last");
    header
}

/// The query string of the link to `page`, as far as it can be encoded.
fn link<P: Paginatable>(page: &Option<P>) -> (result: Option<String>)
    ensures
        match result {
            Some(query) => urlencoded(params_of(*page)) == Some(query@),
            None => urlencoded(params_of(*page)) is None,
        },
        *page is None ==> result is Some && result->Some_0@ == Seq::<char>::empty(),
{
    let pairs = match page {
        Some(page) => Some(page.query_pairs()),
        None => None,
    };
    assert(pairs.deep_view() == params_of(*page));
    match encode_query(&pairs) {
        Ok(query) => Some(query),
        Err(_) => None,
    }
}

impl<P: Paginatable> Navigation<P> {
    /// The text of the header for these links, where each of them can be encoded.
    pub open spec fn header_text(&self) -> Option<Seq<char>> {
        match (
            urlencoded(params_of(self.first)),
            urlencoded(params_of(self.prev)),
            urlencoded(params_of(self.next)),
            urlencoded(params_of(self.last)),
        ) {
            (Some(first), Some(prev), Some(next), Some(last)) => Some(
                link_header(first, prev, next, last),
            ),
            _ => None,
        }
    }

    /// The header that names the four links, each of them as the query string that
    /// asks for its page. Fails with `InvalidState` where the parameters of one of
    /// the pages cannot be encoded. Where none of the four pages is there, the
    /// header holds four empty links.
    pub fn header(&self) -> (result: Result<String, PointercrateError>)
        ensures
            match result {
                Ok(header) => self.header_text() == Some(header@),
                Err(error) => self.header_text() is None && error
                    == PointercrateError::InvalidState,
            },
            self.first is None && self.prev is None && self.next is None && self.last is None
                ==> result is Ok && result->Ok_0@ == link_header(
                Seq::empty(),
                Seq::empty(),
                Seq::empty(),
                Seq::empty(),
            ),
    {
        let first = link(&self.first);
        let prev = link(&self.prev);
        let next = link(&self.next);
        let last = link(&self.last);
        match (first, prev, next, last) {
            (Some(first), Some(prev), Some(next), Some(last)) => Ok(
                write_link_header(first.as_str(), prev.as_str(), next.as_str(), last.as_str()),
            ),
            _ => Err(PointercrateError::InvalidState),
        }
    }
}

} // verus!
