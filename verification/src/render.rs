//! The view-model behind the three layouts: which layout the current tab
//! selects, and the exact texts the renderer shows for posts and comments.
//!
//! Drawing itself is the rendering library's concern; everything here is
//! a pure mapping from state to plain values.

use vstd::prelude::*;
use vstd::string::*;

use crate::app::App;
use crate::post::{Comment, Post, is_text_post};

verus! {

/// The three mutually exclusive layouts, selected solely by the current
/// tab.
#[derive(Clone, Copy, PartialEq, Eq, Structural, Debug)]
pub enum ViewKind {
    Listing,
    Detail,
    Search,
}

/// The layout the tab index selects.
pub open spec fn spec_view_of(tab: int) -> ViewKind {
    if tab == 0 {
        ViewKind::Listing
    } else if tab == 1 {
        ViewKind::Detail
    } else {
        ViewKind::Search
    }
}

/// Selects exactly one of the three layouts for a frame, by the current
/// tab alone.
pub fn current_view(app: &App) -> (v: ViewKind)
    requires
        app.wf(),
    ensures
        v == spec_view_of(app.index as int),
{
    if app.index == 0 {
        ViewKind::Listing
    } else if app.index == 1 {
        ViewKind::Detail
    } else {
        ViewKind::Search
    }
}

/// The heading line of a listing row: the subreddit label followed by the
/// title, each empty when absent.
pub open spec fn spec_post_line(p: Post) -> Seq<char> {
    (match p.subreddit {
        Some(s) => s@,
        None => Seq::<char>::empty(),
    }) + (match p.title {
        Some(t) => t@,
        None => Seq::<char>::empty(),
    })
}

pub fn post_line(p: &Post) -> (s: String)
    ensures
        s@ == spec_post_line(*p),
{
    let mut s = String::new();
    match &p.subreddit {
        Some(sub) => s.append(sub.as_str()),
        None => (),
    }
    match &p.title {
        Some(t) => s.append(t.as_str()),
        None => (),
    }
    proof {
        assert(s@ =~= spec_post_line(*p));
    }
    s
}

/// The body line of a listing row: the self-text of a text post, a fixed
/// placeholder for every other entry.
pub open spec fn spec_listing_body(p: Post) -> Seq<char> {
    if is_text_post(p) {
        p.selftext.unwrap()@
    } else {
        "Not a text post"@
    }
}

pub fn listing_body(p: &Post) -> (s: String)
    ensures
        s@ == spec_listing_body(*p),
{
    match &p.selftext {
        Some(t) => {
            if t.as_str().is_empty() {
                String::from_str("Not a text post")
            } else {
                t.clone()
            }
        },
        None => String::from_str("Not a text post"),
    }
}

/// The title shown by the detail layout; a fixed placeholder when absent.
pub open spec fn spec_detail_title(p: Post) -> Seq<char> {
    match p.title {
        Some(t) => t@,
        None => "Post"@,
    }
}

pub fn detail_title(p: &Post) -> (s: String)
    ensures
        s@ == spec_detail_title(*p),
{
    match &p.title {
        Some(t) => t.clone(),
        None => String::from_str("Post"),
    }
}

/// The subreddit heading shown by the detail layout; a fixed placeholder
/// when absent.
pub open spec fn spec_detail_subreddit(p: Post) -> Seq<char> {
    match p.subreddit {
        Some(s) => s@,
        None => "Post"@,
    }
}

pub fn detail_subreddit(p: &Post) -> (s: String)
    ensures
        s@ == spec_detail_subreddit(*p),
{
    match &p.subreddit {
        Some(s) => s.clone(),
        None => String::from_str("Post"),
    }
}

/// The post body shown by the detail layout.  Unlike the listing rows, an
/// empty self-text stays empty here; only an absent one gets the
/// placeholder.
pub open spec fn spec_detail_body(p: Post) -> Seq<char> {
    match p.selftext {
        Some(t) => t@,
        None => "Not a text post"@,
    }
}

pub fn detail_body(p: &Post) -> (s: String)
    ensures
        s@ == spec_detail_body(*p),
{
    match &p.selftext {
        Some(t) => t.clone(),
        None => String::from_str("Not a text post"),
    }
}

/// One rendered comment line: author and body, each empty when absent,
/// joined as `u/<author> | <body>` and ended by a line break.
pub open spec fn spec_comment_line(c: Comment) -> Seq<char> {
    "u/"@ + (match c.author {
        Some(a) => a@,
        None => Seq::<char>::empty(),
    }) + " | "@ + (match c.body {
        Some(b) => b@,
        None => Seq::<char>::empty(),
    }) + "\n"@
}

/// The rendered comment pane: the lines of all comments, in order.
pub open spec fn spec_comments_text(cs: Seq<Comment>) -> Seq<char>
    decreases cs.len(),
{
    if cs.len() == 0 {
        Seq::<char>::empty()
    } else {
        spec_comments_text(cs.drop_last()) + spec_comment_line(cs.last())
    }
}

pub fn comments_text(cs: &Vec<Comment>) -> (s: String)
    ensures
        s@ == spec_comments_text(cs@),
{
    let mut s = String::new();
    let mut i: usize = 0;
    while i < cs.len()
        invariant
            i <= cs@.len(),
            s@ == spec_comments_text(cs@.take(i as int)),
        decreases cs@.len() - i,
    {
        s.append("u/");
        match &cs[i].author {
            Some(a) => s.append(a.as_str()),
            None => (),
        }
        s.append(" | ");
        match &cs[i].body {
            Some(b) => s.append(b.as_str()),
            None => (),
        }
        s.append("\n");
        proof {
            assert(cs@.take(i + 1).drop_last() =~= cs@.take(i as int));
            assert(cs@.take(i + 1).last() == cs@[i as int]);
            assert(s@ =~= spec_comments_text(cs@.take(i as int)) + spec_comment_line(cs@[i as int]));
        }
        i = i + 1;
    }
    proof {
        assert(cs@.take(cs@.len() as int) =~= cs@);
    }
    s
}

} // verus!
