//! The navigation state machine: one session's tab, selection, scroll,
//! sort and search state, advanced one keyboard event at a time.
//!
//! `step` applies exactly one transition and hands back the outside work
//! it asks for, as an [`Action`].  The caller performs the fetch the
//! action names and feeds the decoded result back through
//! [`App::apply_listing`] or [`App::set_comments`]; every decision in
//! between is made here.  The pagination cursor is owned by the session
//! state and threaded explicitly into each fetch URL.

use vstd::prelude::*;
use vstd::string::*;

use crate::list::{ListState, StatefulList, spec_next_index, spec_previous_index};
use crate::post::{Comment, Post};
use crate::render::{post_line, spec_post_line};
use crate::url::{SortMode, comments_url, listing_url, spec_comments_url, spec_listing_url};

verus! {

/// One keyboard event, as the state machine reads it.  Any key the
/// machine does not react to is `Other`.
#[derive(Clone, Copy, PartialEq, Eq, Structural, Debug)]
pub enum Key {
    Esc,
    Tab,
    Left,
    Right,
    Up,
    Down,
    Enter,
    Backspace,
    Char(char),
    Other,
}

/// The outside work one step asks for.
#[derive(Debug)]
pub enum Action {
    /// Nothing beyond rendering the new state.
    Idle,
    /// End the session.
    Exit,
    /// Fetch the listing page at `url`.  `reset_selection` says whether
    /// the selection moves to index 0 once the filtered page is applied;
    /// `then_comments` asks for a follow-up comment fetch for the post
    /// selected after that.
    FetchListing { url: String, reset_selection: bool, then_comments: bool },
    /// Fetch the comments at `url` for the selected post.
    FetchComments { url: String },
}

/// One running session's state.
pub struct App {
    /// The three tab titles.
    pub titles: Vec<String>,
    /// The rendered post lines and the selection over them.
    pub items: StatefulList<(String, usize)>,
    /// Current tab index.
    pub index: usize,
    /// Scroll offset of the post pane of the detail layout.
    pub post_scroll: u16,
    /// Scroll offset of the comment pane of the detail layout.
    pub comment_scroll: u16,
    /// The free-text search buffer, and the query of every fetch.
    pub input: String,
    /// Comments of the most recent comment fetch.
    pub comments: Vec<Comment>,
    /// Sort mode of listing fetches.
    pub sort_by: SortMode,
    /// Sort mode of comment fetches.
    pub comments_sort_by: SortMode,
    /// Which pane of the detail layout has focus: 0 posts, 1 comments.
    pub current_focus: usize,
    /// Session cookie, empty for an anonymous session.
    pub cookie: String,
    /// The working post set of the most recent filtered listing fetch.
    pub posts: Vec<Post>,
    /// The pagination cursor of the most recent filtered listing fetch;
    /// empty before the first one.
    pub cursor: String,
}

impl App {
    /// Shape every session state keeps: three tabs, the tab index and the
    /// pane focus in range, and some index always selected.
    pub open spec fn wf(self) -> bool {
        &&& self.titles@.len() == 3
        &&& self.index < 3
        &&& self.current_focus < 2
        &&& self.items.state.selected is Some
    }
}

/// `a` after a switch to the tab one to the right, wrapping: both scroll
/// offsets are reset to 0.
pub open spec fn tab_next(a: App) -> App {
    App { index: ((a.index + 1) % 3) as usize, post_scroll: 0u16, comment_scroll: 0u16, ..a }
}

/// `a` after a switch to the tab one to the left, wrapping: both scroll
/// offsets are reset to 0.
pub open spec fn tab_previous(a: App) -> App {
    App {
        index: if a.index > 0 {
            (a.index - 1) as usize
        } else {
            2usize
        },
        post_scroll: 0u16,
        comment_scroll: 0u16,
        ..a
    }
}

/// Switching tabs, in either direction, resets both scroll offsets to
/// exactly 0, whatever values they held.
pub proof fn lemma_tab_switch_resets_scrolls(a: App)
    ensures
        tab_next(a).post_scroll == 0,
        tab_next(a).comment_scroll == 0,
        tab_previous(a).post_scroll == 0,
        tab_previous(a).comment_scroll == 0,
{
}

/// A scroll offset after one upward scroll request: moved by `amount`
/// when it was off the top, kept at 0 otherwise.
pub open spec fn spec_scroll_up(s: u16, amount: u16) -> u16 {
    if s >= 1 {
        (s - amount) as u16
    } else {
        s
    }
}

/// A scroll offset after one downward scroll request: moved by `amount`,
/// saturating at the largest offset.
pub open spec fn spec_scroll_down(s: u16, amount: u16) -> u16 {
    if s + amount <= u16::MAX {
        (s + amount) as u16
    } else {
        u16::MAX
    }
}

/// `a` with the selection moved to index `i`.
pub open spec fn with_selection(a: App, i: usize) -> App {
    App {
        items: StatefulList { state: ListState { selected: Some(i) }, items: a.items.items },
        ..a
    }
}

/// The selected index, as an integer.
pub open spec fn sel_int(a: App) -> int {
    a.items.state.selected.unwrap() as int
}

/// `act` is the listing fetch that `a`'s query, sort mode and cursor call
/// for, with the given pagination and follow-up flags.
pub open spec fn is_listing_fetch(
    a: App,
    use_pagination: bool,
    reset_selection: bool,
    then_comments: bool,
    act: Action,
) -> bool {
    act matches Action::FetchListing { url, reset_selection: r, then_comments: f }
        && url@ == spec_listing_url(a.input@, use_pagination, a.sort_by, a.cursor@) && r
        == reset_selection && f == then_comments
}

/// `act` is the comment fetch for the post of `a` at `index`, when that
/// post exists and carries an identifier long enough to strip; a
/// selection that names no such post triggers no fetch.
pub open spec fn is_comments_fetch(a: App, index: int, act: Action) -> bool {
    if 0 <= index < a.posts@.len() && a.posts@[index].name is Some
        && a.posts@[index].name.unwrap()@.len() >= 3 {
        act matches Action::FetchComments { url } && url@ == spec_comments_url(
            a.posts@[index].name.unwrap()@,
            a.comments_sort_by,
        )
    } else {
        act is Idle
    }
}

/// A listing-sort change: the sort mode is stored, and the first page is
/// re-fetched without pagination; the selection is not reset.
pub open spec fn sort_change_rel(pre: App, m: SortMode, post: App, act: Action) -> bool {
    post == (App { sort_by: m, ..pre }) && is_listing_fetch(post, false, false, false, act)
}

/// A comment-sort change: the sort mode is stored, and the comments of
/// the selected post are re-fetched under it.
pub open spec fn comments_sort_change_rel(pre: App, m: SortMode, post: App, act: Action) -> bool {
    post == (App { comments_sort_by: m, ..pre }) && is_comments_fetch(post, sel_int(pre), act)
}

/// Moving the selection up in the list: wraps from 0 to the last index;
/// on an empty list with index 0 selected, nothing moves.
pub open spec fn list_up_rel(pre: App, post: App) -> bool {
    if pre.items.state.selected == Some(0usize) && pre.items.items@.len() == 0 {
        post == pre
    } else {
        post == with_selection(
            pre,
            spec_previous_index(pre.items.state.selected, pre.items.items@.len()),
        )
    }
}

/// Moving the selection down.  Reaching one past the last loaded item is
/// the load-more signal: exactly one paginated fetch, applied with the
/// selection reset to 0.  In the detail layout any other move re-fetches
/// the comments of the newly selected post.
pub open spec fn down_rel(pre: App, post: App, act: Action, in_detail: bool) -> bool {
    let n = spec_next_index(pre.items.state.selected, pre.items.items@.len());
    let moved = with_selection(pre, n);
    post == moved && if n == pre.items.items@.len() {
        is_listing_fetch(pre, true, true, in_detail, act)
    } else {
        if in_detail {
            is_comments_fetch(moved, n as int, act)
        } else {
            act is Idle
        }
    }
}

/// Moving the selection up in the detail layout: as `list_up_rel`, and
/// the comments of the newly selected post are re-fetched.
pub open spec fn detail_up_rel(pre: App, post: App, act: Action) -> bool {
    if pre.items.state.selected == Some(0usize) && pre.items.items@.len() == 0 {
        post == pre && act is Idle
    } else {
        let p = spec_previous_index(pre.items.state.selected, pre.items.items@.len());
        post == with_selection(pre, p) && is_comments_fetch(with_selection(pre, p), p as int, act)
    }
}

/// One scroll request upward, against the focused pane.
pub open spec fn scroll_up_rel(pre: App, post: App) -> bool {
    if pre.current_focus == 0 {
        post == (App { post_scroll: spec_scroll_up(pre.post_scroll, 1), ..pre })
    } else {
        post == (App { comment_scroll: spec_scroll_up(pre.comment_scroll, 1), ..pre })
    }
}

/// One scroll request downward, against the focused pane.
pub open spec fn scroll_down_rel(pre: App, post: App) -> bool {
    if pre.current_focus == 0 {
        post == (App { post_scroll: spec_scroll_down(pre.post_scroll, 1), ..pre })
    } else {
        post == (App { comment_scroll: spec_scroll_down(pre.comment_scroll, 1), ..pre })
    }
}

/// The transitions of the listing tab.
pub open spec fn step_listing_rel(pre: App, key: Key, post: App, act: Action) -> bool {
    match key {
        Key::Esc => post == pre && act is Exit,
        Key::Char(c) => if c == '2' {
            post == tab_next(pre) && act is Idle
        } else if c == '1' {
            post == tab_previous(pre) && act is Idle
        } else if c == 'h' {
            sort_change_rel(pre, SortMode::Hot, post, act)
        } else if c == 'b' {
            sort_change_rel(pre, SortMode::Best, post, act)
        } else if c == 'c' {
            sort_change_rel(pre, SortMode::Controversial, post, act)
        } else {
            post == pre && act is Idle
        },
        Key::Left => post == tab_previous(pre) && act is Idle,
        Key::Up => list_up_rel(pre, post) && act is Idle,
        Key::Right => post == tab_next(pre) && is_comments_fetch(pre, sel_int(pre), act),
        Key::Down => down_rel(pre, post, act, false),
        _ => post == pre && act is Idle,
    }
}

/// The transitions of the detail tab.
pub open spec fn step_detail_rel(pre: App, key: Key, post: App, act: Action) -> bool {
    match key {
        Key::Esc => post == pre && act is Exit,
        Key::Tab => post == (
        App { current_focus: ((pre.current_focus + 1) % 2) as usize, ..pre }) && act is Idle,
        Key::Char(c) => if c == '2' {
            post == tab_next(pre) && act is Idle
        } else if c == '1' {
            post == tab_previous(pre) && act is Idle
        } else if c == 'j' {
            scroll_up_rel(pre, post) && act is Idle
        } else if c == 'k' {
            scroll_down_rel(pre, post) && act is Idle
        } else if c == 'h' {
            comments_sort_change_rel(pre, SortMode::Hot, post, act)
        } else if c == 'b' {
            comments_sort_change_rel(pre, SortMode::Best, post, act)
        } else if c == 'c' {
            comments_sort_change_rel(pre, SortMode::Controversial, post, act)
        } else {
            post == pre && act is Idle
        },
        Key::Left => post == tab_previous(pre) && act is Idle,
        Key::Right => post == tab_next(pre) && act is Idle,
        Key::Down => down_rel(pre, post, act, true),
        Key::Up => detail_up_rel(pre, post, act),
        _ => post == pre && act is Idle,
    }
}

/// The transitions of the search tab.
pub open spec fn step_search_rel(pre: App, key: Key, post: App, act: Action) -> bool {
    match key {
        Key::Esc => post == pre && act is Exit,
        Key::Char(c) => post == (App { input: post.input, ..pre }) && post.input@ == pre.input@.push(
            c,
        ) && act is Idle,
        Key::Backspace => post == (App { input: post.input, ..pre }) && post.input@ == (
        if pre.input@.len() > 0 {
            pre.input@.drop_last()
        } else {
            pre.input@
        }) && act is Idle,
        Key::Enter => post == pre && is_listing_fetch(pre, false, true, false, act),
        Key::Left => post == tab_previous(pre) && is_comments_fetch(pre, sel_int(pre), act),
        Key::Right => post == tab_next(pre) && act is Idle,
        _ => post == pre && act is Idle,
    }
}

/// The whole transition relation: the current tab picks the rule.
pub open spec fn step_rel(pre: App, key: Key, post: App, act: Action) -> bool {
    if pre.index == 0 {
        step_listing_rel(pre, key, post, act)
    } else if pre.index == 1 {
        step_detail_rel(pre, key, post, act)
    } else {
        step_search_rel(pre, key, post, act)
    }
}

/// Relies on std's `String::push`: appends the character at the end.
#[verifier::external_body]
fn push_char(s: &mut String, c: char)
    ensures
        final(s)@ == old(s)@.push(c),
{
    s.push(c);
}

/// Relies on std's `String::pop`: removes and returns the last character,
/// or returns `None` from an empty string.
#[verifier::external_body]
fn pop_char(s: &mut String) -> (r: Option<char>)
    ensures
        old(s)@.len() == 0 ==> r is None && final(s)@ == old(s)@,
        old(s)@.len() > 0 ==> r == Some(old(s)@.last()) && final(s)@ == old(s)@.drop_last(),
{
    s.pop()
}

impl App {
    /// A fresh session: listing tab, post pane focused, empty query,
    /// sorts `hot` for posts and `best` for comments, no posts fetched
    /// yet and an empty pagination cursor.
    pub fn new(cookie: String) -> (app: App)
        ensures
            app.wf(),
            app.index == 0,
            app.current_focus == 0,
            app.post_scroll == 0,
            app.comment_scroll == 0,
            app.input@.len() == 0,
            app.comments@.len() == 0,
            app.sort_by == SortMode::Hot,
            app.comments_sort_by == SortMode::Best,
            app.cookie == cookie,
            app.cursor@.len() == 0,
            app.posts@.len() == 0,
            app.titles@.len() == 3,
            app.titles@[0]@ == "Home"@,
            app.titles@[1]@ == "Post"@,
            app.titles@[2]@ == "Search"@,
            app.items.state.selected == Some(0usize),
            app.items.items@.len() == 1,
    {
        let mut titles: Vec<String> = Vec::new();
        titles.push(String::from_str("Home"));
        titles.push(String::from_str("Post"));
        titles.push(String::from_str("Search"));
        let mut seed: Vec<(String, usize)> = Vec::new();
        seed.push((String::from_str("Item0"), 1));
        App {
            titles,
            current_focus: 0,
            index: 0,
            items: StatefulList::with_items(seed),
            post_scroll: 0,
            input: String::new(),
            comments: Vec::new(),
            sort_by: SortMode::Hot,
            comments_sort_by: SortMode::Best,
            comment_scroll: 0,
            cookie,
            posts: Vec::new(),
            cursor: String::new(),
        }
    }

    /// Scrolls the post pane up by `amount` when it is off the top.
    pub fn post_scroll_up(&mut self, amount: u16)
        requires
            old(self).post_scroll >= 1 ==> amount <= old(self).post_scroll,
        ensures
            *final(self) == (App { post_scroll: spec_scroll_up(old(self).post_scroll, amount), ..*old(self) }),
    {
        if self.post_scroll >= 1 {
            self.post_scroll = self.post_scroll - amount;
        }
    }

    /// Scrolls the post pane down by `amount`, saturating at the largest
    /// offset.
    pub fn post_scroll_down(&mut self, amount: u16)
        ensures
            *final(self) == (App { post_scroll: spec_scroll_down(old(self).post_scroll, amount), ..*old(self) }),
    {
        if amount <= u16::MAX - self.post_scroll {
            self.post_scroll = self.post_scroll + amount;
        } else {
            self.post_scroll = u16::MAX;
        }
    }

    /// Scrolls the comment pane up by `amount` when it is off the top.
    pub fn comment_scroll_up(&mut self, amount: u16)
        requires
            old(self).comment_scroll >= 1 ==> amount <= old(self).comment_scroll,
        ensures
            *final(self) == (App { comment_scroll: spec_scroll_up(old(self).comment_scroll, amount), ..*old(self) }),
    {
        if self.comment_scroll >= 1 {
            self.comment_scroll = self.comment_scroll - amount;
        }
    }

    /// Scrolls the comment pane down by `amount`, saturating at the
    /// largest offset.
    pub fn comment_scroll_down(&mut self, amount: u16)
        ensures
            *final(self) == (App { comment_scroll: spec_scroll_down(old(self).comment_scroll, amount), ..*old(self) }),
    {
        if amount <= u16::MAX - self.comment_scroll {
            self.comment_scroll = self.comment_scroll + amount;
        } else {
            self.comment_scroll = u16::MAX;
        }
    }

    /// Switches to the tab one to the right, wrapping; both scroll
    /// offsets are reset.
    pub fn next(&mut self)
        requires
            old(self).wf(),
        ensures
            *final(self) == (tab_next(*old(self))),
            final(self).wf(),
    {
        self.comment_scroll = 0;
        self.post_scroll = 0;
        self.index = (self.index + 1) % self.titles.len();
    }

    /// Switches to the tab one to the left, wrapping; both scroll offsets
    /// are reset.
    pub fn previous(&mut self)
        requires
            old(self).wf(),
        ensures
            *final(self) == (tab_previous(*old(self))),
            final(self).wf(),
    {
        self.comment_scroll = 0;
        self.post_scroll = 0;
        if self.index > 0 {
            self.index = self.index - 1;
        } else {
            self.index = self.titles.len() - 1;
        }
    }

    /// Toggles the focused pane of the detail layout.
    pub fn change_focus(&mut self)
        requires
            old(self).wf(),
        ensures
            *final(self) == (App { current_focus: ((old(self).current_focus + 1) % 2) as usize, ..*old(self) }),
            final(self).wf(),
    {
        self.current_focus = (self.current_focus + 1) % 2;
    }

    /// Appends one character to the search buffer.
    pub fn append_input(&mut self, user_char: char)
        ensures
            *final(self) == (App { input: final(self).input, ..*old(self) }),
            final(self).input@ == old(self).input@.push(user_char),
    {
        push_char(&mut self.input, user_char);
    }

    /// Removes the last character of the search buffer, if any.
    pub fn delete_from_input(&mut self)
        ensures
            *final(self) == (App { input: final(self).input, ..*old(self) }),
            final(self).input@ == (if old(self).input@.len() > 0 {
                old(self).input@.drop_last()
            } else {
                old(self).input@
            }),
    {
        let _ = pop_char(&mut self.input);
    }

    /// Replaces the comment set.
    pub fn set_comments(&mut self, comments: Vec<Comment>)
        ensures
            *final(self) == (App { comments: comments, ..*old(self) }),
    {
        self.comments = comments;
    }

    /// Installs a freshly filtered listing page: the working post set and
    /// the new pagination cursor; the selection moves to index 0 when
    /// `reset_selection` asks for it.
    pub fn apply_listing(&mut self, posts: Vec<Post>, cursor: String, reset_selection: bool)
        ensures
            *final(self) == (App {
                posts: posts,
                cursor: cursor,
                items: StatefulList {
                    state: ListState {
                        selected: if reset_selection {
                            Some(0usize)
                        } else {
                            old(self).items.state.selected
                        },
                    },
                    items: old(self).items.items,
                },
                ..*old(self)
            }),
    {
        self.posts = posts;
        self.cursor = cursor;
        if reset_selection {
            self.items.state.select(Some(0));
        }
    }

    /// Rebuilds the rendered post lines from the working post set, one
    /// line per post, each carrying its index; the selection stays.
    pub fn refresh_items(&mut self)
        ensures
            *final(self) == (App { items: final(self).items, ..*old(self) }),
            final(self).items.state == old(self).items.state,
            final(self).items.items@.len() == old(self).posts@.len(),
            forall|i: int|
                0 <= i < old(self).posts@.len() ==> (#[trigger] final(self).items.items@[i]).0@
                    == spec_post_line(old(self).posts@[i]) && final(self).items.items@[i].1 == i,
    {
        let mut lines: Vec<(String, usize)> = Vec::new();
        let mut i: usize = 0;
        while i < self.posts.len()
            invariant
                i <= self.posts@.len(),
                lines@.len() == i,
                forall|j: int|
                    0 <= j < i ==> (#[trigger] lines@[j]).0@ == spec_post_line(self.posts@[j])
                        && lines@[j].1 == j,
            decreases self.posts@.len() - i,
        {
            let line = post_line(&self.posts[i]);
            lines.push((line, i));
            i = i + 1;
        }
        self.items.items = lines;
    }

    /// The comment-fetch URL for the post at `index`, when that post
    /// exists and carries an identifier long enough to strip.
    pub fn comments_url_for(&self, index: usize) -> (r: Option<String>)
        ensures
            match r {
                Some(url) => index < self.posts@.len() && self.posts@[index as int].name is Some
                    && self.posts@[index as int].name.unwrap()@.len() >= 3 && url@
                    == spec_comments_url(
                    self.posts@[index as int].name.unwrap()@,
                    self.comments_sort_by,
                ),
                None => !(index < self.posts@.len() && self.posts@[index as int].name is Some
                    && self.posts@[index as int].name.unwrap()@.len() >= 3),
            },
    {
        if index >= self.posts.len() {
            return None;
        }
        match &self.posts[index].name {
            Some(n) => comments_url(n.as_str(), self.comments_sort_by),
            None => None,
        }
    }

    /// The action a comment fetch for the post at `index` amounts to: the
    /// fetch when the URL can be built, nothing otherwise.
    fn comments_action(&self, index: usize) -> (act: Action)
        ensures
            is_comments_fetch(*self, index as int, act),
    {
        match self.comments_url_for(index) {
            Some(url) => Action::FetchComments { url },
            None => Action::Idle,
        }
    }

    /// The listing fetch that this state's query, sort mode and cursor
    /// call for.
    fn listing_fetch(&self, use_pagination: bool, reset_selection: bool, then_comments: bool) -> (act: Action)
        ensures
            is_listing_fetch(*self, use_pagination, reset_selection, then_comments, act),
    {
        let url = listing_url(
            self.input.as_str(),
            use_pagination,
            self.sort_by,
            self.cursor.as_str(),
        );
        Action::FetchListing { url, reset_selection, then_comments }
    }

    /// Whether the selection sits on index 0 of an empty list, from where
    /// no upward move exists.
    fn up_blocked(&self) -> (b: bool)
        ensures
            b == (self.items.state.selected == Some(0usize) && self.items.items@.len() == 0),
    {
        match self.items.state.selected() {
            Some(i) => i == 0 && self.items.items.len() == 0,
            None => false,
        }
    }

    /// The selected index; 0 when nothing is selected.
    fn selected_or_zero(&self) -> (i: usize)
        ensures
            self.items.state.selected is Some ==> i == self.items.state.selected.unwrap(),
            self.items.state.selected is None ==> i == 0,
    {
        match self.items.state.selected() {
            Some(i) => i,
            None => 0,
        }
    }

    /// Applies exactly one transition of the navigation state machine and
    /// returns the outside work it asks for.
    pub fn step(&mut self, key: Key) -> (act: Action)
        requires
            old(self).wf(),
        ensures
            step_rel(*old(self), key, *final(self), act),
            final(self).wf(),
    {
        if self.index == 0 {
            match key {
                Key::Esc => Action::Exit,
                Key::Char(c) => {
                    if c == '2' {
                        self.next();
                        Action::Idle
                    } else if c == '1' {
                        self.previous();
                        Action::Idle
                    } else if c == 'h' {
                        self.sort_by = SortMode::Hot;
                        self.listing_fetch(false, false, false)
                    } else if c == 'b' {
                        self.sort_by = SortMode::Best;
                        self.listing_fetch(false, false, false)
                    } else if c == 'c' {
                        self.sort_by = SortMode::Controversial;
                        self.listing_fetch(false, false, false)
                    } else {
                        Action::Idle
                    }
                },
                Key::Left => {
                    self.previous();
                    Action::Idle
                },
                Key::Up => {
                    if !self.up_blocked() {
                        self.items.previous();
                    }
                    Action::Idle
                },
                Key::Right => {
                    let sel = self.selected_or_zero();
                    let act = self.comments_action(sel);
                    self.next();
                    act
                },
                Key::Down => {
                    self.items.next();
                    let sel = self.selected_or_zero();
                    if sel == self.items.items.len() {
                        self.listing_fetch(true, true, false)
                    } else {
                        Action::Idle
                    }
                },
                _ => Action::Idle,
            }
        } else if self.index == 1 {
            match key {
                Key::Esc => Action::Exit,
                Key::Tab => {
                    self.change_focus();
                    Action::Idle
                },
                Key::Char(c) => {
                    if c == '2' {
                        self.next();
                        Action::Idle
                    } else if c == '1' {
                        self.previous();
                        Action::Idle
                    } else if c == 'j' {
                        if self.current_focus == 0 {
                            self.post_scroll_up(1);
                        } else {
                            self.comment_scroll_up(1);
                        }
                        Action::Idle
                    } else if c == 'k' {
                        if self.current_focus == 0 {
                            self.post_scroll_down(1);
                        } else {
                            self.comment_scroll_down(1);
                        }
                        Action::Idle
                    } else if c == 'h' {
                        self.comments_sort_by = SortMode::Hot;
                        let sel = self.selected_or_zero();
                        self.comments_action(sel)
                    } else if c == 'b' {
                        self.comments_sort_by = SortMode::Best;
                        let sel = self.selected_or_zero();
                        self.comments_action(sel)
                    } else if c == 'c' {
                        self.comments_sort_by = SortMode::Controversial;
                        let sel = self.selected_or_zero();
                        self.comments_action(sel)
                    } else {
                        Action::Idle
                    }
                },
                Key::Left => {
                    self.previous();
                    Action::Idle
                },
                Key::Right => {
                    self.next();
                    Action::Idle
                },
                Key::Down => {
                    self.items.next();
                    let sel = self.selected_or_zero();
                    if sel == self.items.items.len() {
                        self.listing_fetch(true, true, true)
                    } else {
                        self.comments_action(sel)
                    }
                },
                Key::Up => {
                    if self.up_blocked() {
                        Action::Idle
                    } else {
                        self.items.previous();
                        let sel = self.selected_or_zero();
                        self.comments_action(sel)
                    }
                },
                _ => Action::Idle,
            }
        } else {
            match key {
                Key::Esc => Action::Exit,
                Key::Char(c) => {
                    self.append_input(c);
                    Action::Idle
                },
                Key::Backspace => {
                    self.delete_from_input();
                    Action::Idle
                },
                Key::Enter => self.listing_fetch(false, true, false),
                Key::Left => {
                    let sel = self.selected_or_zero();
                    let act = self.comments_action(sel);
                    self.previous();
                    act
                },
                Key::Right => {
                    self.next();
                    Action::Idle
                },
                _ => Action::Idle,
            }
        }
    }
}

} // verus!
