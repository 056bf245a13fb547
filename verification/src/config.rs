//! The persisted session record: the session cookie and the saved tab
//! names.  Reading and writing the config file is the caller's concern;
//! this module holds the record itself and how a change applies to it.

use vstd::prelude::*;

verus! {

/// The persisted session record.
pub struct UserConfig {
    pub tabs: Vec<String>,
    pub cookie: String,
}

impl UserConfig {
    /// The default record: no saved tabs, no session cookie.
    pub fn new() -> (c: UserConfig)
        ensures
            c.tabs@.len() == 0,
            c.cookie@.len() == 0,
    {
        UserConfig { tabs: Vec::new(), cookie: String::new() }
    }

    /// Applies a config change: each field that is given replaces the
    /// stored one, an absent field keeps it.
    pub fn apply_changes(&mut self, new_cookie: Option<String>, new_tabs: Option<Vec<String>>)
        ensures
            final(self).cookie == (match new_cookie {
                Some(c) => c,
                None => old(self).cookie,
            }),
            final(self).tabs == (match new_tabs {
                Some(t) => t,
                None => old(self).tabs,
            }),
    {
        match new_cookie {
            Some(c) => {
                self.cookie = c;
            },
            None => {},
        }
        match new_tabs {
            Some(t) => {
                self.tabs = t;
            },
            None => {},
        }
    }
}

} // verus!
