//! The in-memory history of submitted queries, with a cursor for stepping
//! back and forth through earlier entries.

use vstd::prelude::*;

use crate::text::{trim_of, trim_ws};

verus! {

/// Previously submitted queries, oldest first, and the cursor position
/// while the user steps through them; no cursor means the newest position.
pub struct QueryHistory {
    history: Vec<String>,
    current_index: Option<usize>,
}

impl QueryHistory {
    /// The recorded queries, oldest first.
    pub closed spec fn entries(&self) -> Seq<Seq<char>> {
        self.history.deep_view()
    }

    /// The cursor, when the user is stepping through the history.
    pub closed spec fn cursor(&self) -> Option<int> {
        match self.current_index {
            Some(i) => Some(i as int),
            None => None,
        }
    }

    /// The cursor, when set, points at a recorded entry.
    pub open spec fn wf(&self) -> bool {
        self.cursor() matches Some(i) ==> 0 <= i < self.entries().len()
    }

    /// An empty history with no cursor.
    pub fn new() -> (r: Self)
        ensures
            r.entries().len() == 0,
            r.cursor() is None,
            r.wf(),
    {
        QueryHistory { history: Vec::new(), current_index: None }
    }

    /// Records `query` and resets the cursor, unless the query is blank or
    /// repeats the newest entry, in which case nothing changes.
    pub fn add(&mut self, query: String)
        requires
            old(self).wf(),
        ensures
            final (self).wf(),
            ({
                let was = old(self).entries();
                let recorded = trim_of(query@).len() > 0 && (was.len() == 0 || was.last()
                    != query@);
                if recorded {
                    final (self).entries() == was.push(query@) && final (self).cursor() is None
                } else {
                    final (self).entries() == was && final (self).cursor() == old(self).cursor()
                }
            }),
    {
        let trimmed = trim_ws(query.as_str());
        if trimmed.unicode_len() == 0 {
            return ;
        }
        let len = self.history.len();
        if len > 0 && self.history[len - 1] == query {
            return ;
        }
        self.history.push(query);
        self.current_index = None;
        proof {
            assert(self.entries() =~= old(self).entries().push(query@));
        }
    }

    /// The recorded queries, oldest first.
    pub fn get_all(&self) -> (r: &[String])
        ensures
            r.deep_view() == self.entries(),
    {
        let r = self.history.as_slice();
        proof {
            assert(r.deep_view() =~= self.entries());
        }
        r
    }

    /// Steps the cursor one entry back (entering at the newest entry when
    /// no cursor was set, staying put at the oldest) and returns the entry
    /// there; an empty history returns nothing and stays untouched.
    pub fn previous(&mut self) -> (r: Option<&String>)
        requires
            old(self).wf(),
        ensures
            final (self).wf(),
            final (self).entries() == old(self).entries(),
            old(self).entries().len() == 0 ==> r is None && final (self).cursor() == old(self).cursor(),
            old(self).entries().len() > 0 ==> ({
                let ni = match old(self).cursor() {
                    Some(i) => if i == 0 {
                        0int
                    } else {
                        i - 1
                    },
                    None => old(self).entries().len() - 1,
                };
                final (self).cursor() == Some(ni) && (r matches Some(s) && s@ == old(self).entries()[ni])
            }),
    {
        let len = self.history.len();
        if len == 0 {
            return None;
        }
        let ni: usize = match self.current_index {
            None => len - 1,
            Some(0) => 0,
            Some(i) => i - 1,
        };
        self.current_index = Some(ni);
        Some(&self.history[ni])
    }

    /// Steps the cursor one entry forward and returns the entry there;
    /// stepping past the newest entry, or calling with no cursor set,
    /// clears the cursor and returns nothing, as does an empty history.
    pub fn next(&mut self) -> (r: Option<&String>)
        requires
            old(self).wf(),
        ensures
            final (self).wf(),
            final (self).entries() == old(self).entries(),
            old(self).entries().len() == 0 ==> r is None && final (self).cursor() == old(self).cursor(),
            old(self).entries().len() > 0 ==> ({
                let len = old(self).entries().len();
                match old(self).cursor() {
                    None => final (self).cursor() is None && r is None,
                    Some(i) => if i >= len - 1 {
                        final (self).cursor() is None && r is None
                    } else {
                        final (self).cursor() == Some(i + 1) && (r matches Some(s) && s@ == old(self).entries()[i + 1])
                    },
                }
            }),
    {
        let len = self.history.len();
        if len == 0 {
            return None;
        }
        let ni: Option<usize> = match self.current_index {
            None => None,
            Some(i) => if i >= len - 1 {
                None
            } else {
                Some(i + 1)
            },
        };
        self.current_index = ni;
        match ni {
            Some(i) => Some(&self.history[i]),
            None => None,
        }
    }
}

} // verus!
