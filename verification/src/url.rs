//! Construction of the fetch URLs sent to the upstream service.
//!
//! A listing request addresses `https://reddit.com/[<query>/]<sort>.json`
//! with a fixed page-size parameter and, for paginated requests, an
//! `after=<cursor>` suffix.  A comment request addresses
//! `https://reddit.com/comments/<id-suffix>/<sort>.json`, where the
//! id suffix is the post identifier with its type prefix and separator
//! (three characters) stripped.

use vstd::prelude::*;
use vstd::string::*;

verus! {

/// One of the orderings the upstream service can apply to a listing.
#[derive(Clone, Copy, PartialEq, Eq, Structural, Debug)]
pub enum SortMode {
    Hot,
    Best,
    Controversial,
}

impl SortMode {
    /// The path segment that selects this ordering.
    pub open spec fn spec_name(self) -> Seq<char> {
        match self {
            SortMode::Hot => "hot"@,
            SortMode::Best => "best"@,
            SortMode::Controversial => "controversial"@,
        }
    }

    pub fn name(self) -> (s: &'static str)
        ensures
            s@ == self.spec_name(),
    {
        match self {
            SortMode::Hot => "hot",
            SortMode::Best => "best",
            SortMode::Controversial => "controversial",
        }
    }
}

/// The URL of a listing fetch.  An empty query addresses the front page:
/// no path separator is inserted between the base and the sort segment.
/// A non-empty query inserts exactly one separator after the query.
pub open spec fn spec_listing_url(
    query: Seq<char>,
    use_pagination: bool,
    sort: SortMode,
    cursor: Seq<char>,
) -> Seq<char> {
    let head = "https://reddit.com/"@ + query
        + (if query.len() == 0 { Seq::<char>::empty() } else { "/"@ })
        + sort.spec_name() + ".json?limit=100"@;
    if use_pagination {
        head + "&after="@ + cursor
    } else {
        head
    }
}

pub fn listing_url(query: &str, use_pagination: bool, sort: SortMode, cursor: &str) -> (url:
    String)
    ensures
        url@ == spec_listing_url(query@, use_pagination, sort, cursor@),
{
    let mut url = String::from_str("https://reddit.com/");
    url.append(query);
    if !query.is_empty() {
        url.append("/");
    }
    url.append(sort.name());
    url.append(".json?limit=100");
    if use_pagination {
        url.append("&after=");
        url.append(cursor);
    }
    proof {
        assert(url@ =~= spec_listing_url(query@, use_pagination, sort, cursor@));
    }
    url
}

/// The URL of a comment fetch for the post named `post_name`.
/// Only meaningful when `post_name` has more than the three characters
/// of its type prefix and separator, which are stripped.
pub open spec fn spec_comments_url(post_name: Seq<char>, sort: SortMode) -> Seq<char> {
    "https://reddit.com/comments/"@ + post_name.skip(3) + "/"@ + sort.spec_name() + ".json"@
}

/// Builds the comment-fetch URL, or returns `None` for an identifier too
/// short to carry a type prefix.
pub fn comments_url(post_name: &str, sort: SortMode) -> (r: Option<String>)
    ensures
        match r {
            Some(url) => post_name@.len() >= 3 && url@ == spec_comments_url(post_name@, sort),
            None => post_name@.len() < 3,
        },
{
    let n = post_name.unicode_len();
    if n < 3 {
        return None;
    }
    let suffix = post_name.substring_char(3, n);
    let mut url = String::from_str("https://reddit.com/comments/");
    url.append(suffix);
    url.append("/");
    url.append(sort.name());
    url.append(".json");
    proof {
        assert(url@ =~= spec_comments_url(post_name@, sort));
    }
    Some(url)
}

} // verus!
