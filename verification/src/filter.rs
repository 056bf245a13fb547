//! The page filter: keeps the text posts of a decoded listing page and
//! derives the pagination cursor for the next fetch.
//!
//! The cursor is the identifier of the entry at the declared count minus
//! one.  A page whose declared count does not address an entry, or whose
//! cursor entry has no identifier, is reported as malformed instead of
//! aborting the process.

use vstd::prelude::*;

use crate::post::{Post, RawListingPage, is_text_post};

verus! {

/// Why a listing page could not be filtered.
#[derive(Clone, Copy, PartialEq, Eq, Structural, Debug)]
pub enum PageError {
    /// The declared entry count is absent, not positive, or larger than
    /// the number of entries, so no entry holds the cursor.
    CursorOutOfRange,
    /// The entry the cursor is derived from carries no identifier.
    MissingIdentifier,
}

/// The declared entry count of a page; absent counts as zero.
pub open spec fn spec_declared_count(page: RawListingPage) -> int {
    match page.dist {
        Some(d) => d as int,
        None => 0,
    }
}

/// The subsequence of `s` made of its text posts, in the order received.
pub open spec fn text_posts(s: Seq<Post>) -> Seq<Post> {
    s.filter(|p: Post| is_text_post(p))
}

proof fn lemma_text_posts_step(s: Seq<Post>, i: int)
    requires
        0 <= i < s.len(),
    ensures
        text_posts(s.take(i + 1)) == (if is_text_post(s[i]) {
            text_posts(s.take(i)).push(s[i])
        } else {
            text_posts(s.take(i))
        }),
{
    reveal(Seq::filter);
    let t = s.take(i + 1);
    assert(t.last() == s[i]);
    assert(t.drop_last() =~= s.take(i));
}

/// A post of `entries` stands in the text-post subsequence iff its
/// self-text field is a non-empty string.
pub proof fn lemma_text_post_membership(entries: Seq<Post>, p: Post)
    requires
        entries.contains(p),
    ensures
        text_posts(entries).contains(p) <==> is_text_post(p),
{
    let pred = |q: Post| is_text_post(q);
    if is_text_post(p) {
        let i = choose|i: int| 0 <= i < entries.len() && entries[i] == p;
        entries.lemma_filter_contains(pred, i);
    }
    if text_posts(entries).contains(p) {
        let j = choose|j: int| 0 <= j < text_posts(entries).len() && text_posts(entries)[j] == p;
        entries.lemma_filter_pred(pred, j);
    }
}

/// Filters a decoded page down to its text posts and derives the new
/// pagination cursor.
///
/// With a declared count `n` that addresses an entry, the cursor is the
/// identifier of entry `n - 1` of the page, and the posts are exactly the
/// entries whose self-text field is present and non-empty, in the order
/// received.
pub fn filter_out_text_posts(page: &RawListingPage) -> (r: Result<(Vec<Post>, String), PageError>)
    ensures
        match r {
            Ok(out) => {
                &&& 0 < spec_declared_count(*page) <= page.children@.len()
                &&& page.children@[spec_declared_count(*page) - 1].name matches Some(n)
                    && out.1@ == n@
                &&& out.0@ == text_posts(page.children@)
            },
            Err(PageError::CursorOutOfRange) => !(0 < spec_declared_count(*page)
                <= page.children@.len()),
            Err(PageError::MissingIdentifier) => 0 < spec_declared_count(*page)
                <= page.children@.len() && page.children@[spec_declared_count(*page) - 1].name
                is None,
        },
{
    let declared: i64 = match page.dist {
        Some(d) => d,
        None => 0,
    };
    if declared <= 0 {
        return Err(PageError::CursorOutOfRange);
    }
    let len = page.children.len();
    if declared as u64 > len as u64 {
        return Err(PageError::CursorOutOfRange);
    }
    let count = declared as usize;
    let cursor: String = match &page.children[count - 1].name {
        Some(n) => n.clone(),
        None => {
            return Err(PageError::MissingIdentifier);
        },
    };

    let mut posts: Vec<Post> = Vec::new();
    let mut i: usize = 0;
    while i < page.children.len()
        invariant
            i <= page.children@.len(),
            posts@ == text_posts(page.children@.take(i as int)),
        decreases page.children@.len() - i,
    {
        let p = &page.children[i];
        if p.is_text() {
            posts.push(p.cloned());
        }
        proof {
            lemma_text_posts_step(page.children@, i as int);
        }
        i = i + 1;
    }
    proof {
        assert(page.children@.take(page.children@.len() as int) =~= page.children@);
    }
    Ok((posts, cursor))
}

} // verus!
