//! The data the client reads from upstream responses: listing entries,
//! comments, and the shape of one decoded listing page.
//!
//! A field the response did not carry is `None`; the logic decides at each
//! use whether that is an error or falls back to a default.

use vstd::prelude::*;

verus! {

/// One listing entry, immutable once fetched.
#[derive(Debug)]
pub struct Post {
    /// Service-assigned identifier, carrying a two-character type prefix
    /// and a separator.
    pub name: Option<String>,
    pub title: Option<String>,
    /// The prefixed subreddit label of the entry.
    pub subreddit: Option<String>,
    /// Authored body text; present and non-empty exactly for text posts.
    pub selftext: Option<String>,
}

/// One reply under a post.
#[derive(Debug)]
pub struct Comment {
    pub author: Option<String>,
    pub body: Option<String>,
}

/// One decoded listing page: the declared entry count and the entries,
/// in the order received.
#[derive(Debug)]
pub struct RawListingPage {
    /// Declared entry count of the page.
    pub dist: Option<i64>,
    pub children: Vec<Post>,
}

/// Whether an entry is a text post: its self-text field is present and is
/// not the empty string.
pub open spec fn is_text_post(p: Post) -> bool {
    p.selftext matches Some(s) && s@.len() > 0
}

fn clone_text(o: &Option<String>) -> (r: Option<String>)
    ensures
        r == *o,
{
    match o {
        Some(s) => Some(s.clone()),
        None => None,
    }
}

impl Post {
    /// A copy of this entry, equal to it field by field.
    pub fn cloned(&self) -> (r: Post)
        ensures
            r == *self,
    {
        Post {
            name: clone_text(&self.name),
            title: clone_text(&self.title),
            subreddit: clone_text(&self.subreddit),
            selftext: clone_text(&self.selftext),
        }
    }

    /// Decides `is_text_post` for this entry.
    pub fn is_text(&self) -> (b: bool)
        ensures
            b == is_text_post(*self),
    {
        match &self.selftext {
            Some(s) => !s.as_str().is_empty(),
            None => false,
        }
    }
}

impl Comment {
    /// A copy of this comment, equal to it field by field.
    pub fn cloned(&self) -> (r: Comment)
        ensures
            r == *self,
    {
        Comment { author: clone_text(&self.author), body: clone_text(&self.body) }
    }
}

} // verus!
