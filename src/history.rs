use vstd::prelude::*;
use crate::text::{copy_chars, has_prefix, views};

verus! {

/// One recorded line, tagged with the session that was active when it was
/// recorded (`None`: recorded with no session isolation).
pub struct HistoryEntry {
    pub line: Vec<char>,
    pub session: Option<u64>,
}

/// Why the store could not be cleared.
#[derive(Debug, PartialEq, Eq, Structural, Clone, Copy)]
pub enum HistoryError {
    /// The backing store refused the operation.
    Backend,
}

/// An append-only, session-aware log of submitted lines.
///
/// Under a session-filtered view only the entries tagged with the current
/// session are visible; untagged entries are hidden from that view.
pub struct HistoryStore {
    pub entries: Vec<HistoryEntry>,
    pub exclusion_prefix: Vec<char>,
    pub session: Option<u64>,
    pub session_only: bool,
}

/// Whether an entry tagged `tag` shows under the filter `filter`.
pub open spec fn shows(filter: Option<u64>, tag: Option<u64>) -> bool {
    match filter {
        None => true,
        Some(id) => tag == Some(id),
    }
}

/// The lines of `es` that show under `filter`, oldest first.
pub open spec fn visible_lines(es: Seq<HistoryEntry>, filter: Option<u64>) -> Seq<Seq<char>>
    decreases es.len(),
{
    if es.len() == 0 {
        Seq::empty()
    } else {
        let prev = visible_lines(es.drop_last(), filter);
        if shows(filter, es.last().session) {
            prev.push(es.last().line@)
        } else {
            prev
        }
    }
}

/// The lines of `es` that show under `filter` and start with `p`, oldest first.
pub open spec fn matching_lines(es: Seq<HistoryEntry>, filter: Option<u64>, p: Seq<char>) -> Seq<
    Seq<char>,
>
    decreases es.len(),
{
    if es.len() == 0 {
        Seq::empty()
    } else {
        let prev = matching_lines(es.drop_last(), filter, p);
        if shows(filter, es.last().session) && p.is_prefix_of(es.last().line@) {
            prev.push(es.last().line@)
        } else {
            prev
        }
    }
}

/// Whether `line` is kept out of the history by the exclusion prefix.
pub open spec fn is_excluded(prefix: Seq<char>, line: Seq<char>) -> bool {
    prefix.len() > 0 && prefix.is_prefix_of(line)
}

/// The filter that a query applies.
pub open spec fn view_filter(session_only: bool, session: Option<u64>) -> Option<u64> {
    if session_only {
        session
    } else {
        None
    }
}

/// The store after one toggle of the session filter, `fresh` being the id
/// taken when no session exists yet.
pub open spec fn toggled(s: HistoryStore, fresh: u64) -> HistoryStore {
    let session = if s.session.is_some() {
        s.session
    } else {
        Some(fresh)
    };
    HistoryStore {
        entries: s.entries,
        exclusion_prefix: s.exclusion_prefix,
        session,
        session_only: if session.is_some() {
            !s.session_only
        } else {
            s.session_only
        },
    }
}

impl HistoryStore {
    /// A store with no entries. With a session id the view starts filtered to
    /// that session.
    pub fn new(exclusion_prefix: Vec<char>, session: Option<u64>) -> (r: HistoryStore)
        ensures
            r.wf(),
            r.entries@.len() == 0,
            r.exclusion_prefix@ == exclusion_prefix@,
            r.session == session,
            r.session_only == session.is_some(),
    {
        let only = session.is_some();
        HistoryStore { entries: Vec::new(), exclusion_prefix, session, session_only: only }
    }

    /// A filtered view always has a session to filter on.
    pub open spec fn wf(&self) -> bool {
        self.session_only ==> self.session.is_some()
    }

    pub open spec fn filter(&self) -> Option<u64> {
        view_filter(self.session_only, self.session)
    }

    pub fn len(&self) -> (r: usize)
        ensures
            r == self.entries.len(),
    {
        self.entries.len()
    }

    /// Records `line` under the current session, unless it is empty or starts
    /// with the exclusion prefix.
    pub fn append(&mut self, line: &Vec<char>) -> (recorded: bool)
        ensures
            recorded == (line@.len() > 0 && !is_excluded(old(self).exclusion_prefix@, line@)),
            recorded ==> final(self).entries@.len() == old(self).entries@.len() + 1
                && final(self).entries@.drop_last() == old(self).entries@
                && final(self).entries@.last().line@ == line@
                && final(self).entries@.last().session == old(self).session,
            !recorded ==> final(self).entries@ == old(self).entries@,
            final(self).exclusion_prefix == old(self).exclusion_prefix,
            final(self).session == old(self).session,
            final(self).session_only == old(self).session_only,
    {
        if line.len() == 0 {
            return false;
        }
        if self.exclusion_prefix.len() > 0 && has_prefix(line, &self.exclusion_prefix) {
            return false;
        }
        let e = HistoryEntry { line: copy_chars(line), session: self.session };
        self.entries.push(e);
        assert(self.entries@.drop_last() =~= old(self).entries@);
        true
    }

    /// The visible lines, oldest first.
    pub fn query(&self) -> (r: Vec<Vec<char>>)
        ensures
            views(r@) == visible_lines(self.entries@, self.filter()),
    {
        let filter = if self.session_only {
            self.session
        } else {
            None
        };
        let mut r: Vec<Vec<char>> = Vec::new();
        let mut i: usize = 0;
        while i < self.entries.len()
            invariant
                i <= self.entries.len(),
                filter == self.filter(),
                views(r@) == visible_lines(self.entries@.take(i as int), filter),
            decreases self.entries.len() - i,
        {
            let e = &self.entries[i];
            let show = match filter {
                None => true,
                Some(id) => match e.session {
                    Some(t) => t == id,
                    None => false,
                },
            };
            proof {
                assert(self.entries@.take(i + 1).drop_last() =~= self.entries@.take(i as int));
            }
            if show {
                let l = copy_chars(&e.line);
                let ghost before = r@;
                r.push(l);
                assert(views(r@) =~= views(before).push(l@));
            }
            i = i + 1;
        }
        assert(self.entries@.take(self.entries.len() as int) =~= self.entries@);
        r
    }

    /// The visible lines that start with `prefix`, oldest first.
    pub fn search_prefix(&self, prefix: &Vec<char>) -> (r: Vec<Vec<char>>)
        ensures
            views(r@) == matching_lines(self.entries@, self.filter(), prefix@),
    {
        let filter = if self.session_only {
            self.session
        } else {
            None
        };
        let mut r: Vec<Vec<char>> = Vec::new();
        let mut i: usize = 0;
        while i < self.entries.len()
            invariant
                i <= self.entries.len(),
                filter == self.filter(),
                views(r@) == matching_lines(self.entries@.take(i as int), filter, prefix@),
            decreases self.entries.len() - i,
        {
            let e = &self.entries[i];
            let show = match filter {
                None => true,
                Some(id) => match e.session {
                    Some(t) => t == id,
                    None => false,
                },
            };
            proof {
                assert(self.entries@.take(i + 1).drop_last() =~= self.entries@.take(i as int));
            }
            if show && has_prefix(&e.line, prefix) {
                let l = copy_chars(&e.line);
                let ghost before = r@;
                r.push(l);
                assert(views(r@) =~= views(before).push(l@));
            }
            i = i + 1;
        }
        assert(self.entries@.take(self.entries.len() as int) =~= self.entries@);
        r
    }

    /// Flips between the view of the current session and the view of all
    /// sessions, starting a session under `fresh` if there is none yet. The
    /// stored entries are not touched.
    pub fn toggle_session_filter(&mut self, fresh: u64)
        requires
            old(self).wf(),
        ensures
            final(self).wf(),
            *final(self) == toggled(*old(self), fresh),
    {
        if self.session.is_none() {
            self.session = Some(fresh);
        }
        self.session_only = !self.session_only;
    }

    /// Removes every entry, or reports why the backing store refused.
    ///
    /// `backend` is the outcome of clearing whatever persists the log; on
    /// failure nothing is removed.
    pub fn clear(&mut self, backend: Result<(), HistoryError>) -> (r: Result<(), HistoryError>)
        ensures
            r == backend,
            r.is_ok() ==> final(self).entries@.len() == 0,
            r.is_err() ==> final(self).entries@ == old(self).entries@,
            final(self).exclusion_prefix == old(self).exclusion_prefix,
            final(self).session == old(self).session,
            final(self).session_only == old(self).session_only,
    {
        if backend.is_ok() {
            self.entries.clear();
        }
        backend
    }
}

/// Toggling the session filter twice restores the view that was in force,
/// whatever session ids were offered, and neither toggle touches the entries.
pub proof fn toggle_twice_restores_view(s: HistoryStore, f1: u64, f2: u64)
    requires
        s.wf(),
    ensures
        toggled(toggled(s, f1), f2).filter() == s.filter(),
        toggled(toggled(s, f1), f2).entries == s.entries,
        toggled(s, f1).wf(),
{
}

} // verus!
