//! The table of sessions that live on this instance.

use vstd::prelude::*;

verus! {

/// One live session: its connection id and the endpoint tag it connected on.
#[derive(Debug, Clone, PartialEq)]
pub struct Session {
    pub connection: String,
    pub endpoint: String,
}

pub ghost struct SessionView {
    pub connection: Seq<char>,
    pub endpoint: Seq<char>,
}

impl View for Session {
    type V = SessionView;

    open spec fn view(&self) -> SessionView {
        SessionView { connection: self.connection@, endpoint: self.endpoint@ }
    }
}

/// Whether some entry of `s` belongs to `connection`.
pub open spec fn has_connection(s: Seq<SessionView>, connection: Seq<char>) -> bool {
    exists|i: int| 0 <= i < s.len() && #[trigger] s[i].connection == connection
}

/// The place of `connection` in `s`, where it has one.
pub open spec fn place_of(s: Seq<SessionView>, connection: Seq<char>) -> int {
    choose|i: int| 0 <= i < s.len() && #[trigger] s[i].connection == connection
}

/// No connection id occurs twice.
pub open spec fn distinct(s: Seq<SessionView>) -> bool {
    forall|i: int, j: int|
        0 <= i < s.len() && 0 <= j < s.len() && #[trigger] s[i].connection == #[trigger] s[j].connection
            ==> i == j
}

/// `s` after `entry` was registered: a known connection gets the new endpoint
/// tag in place, a new one goes to the end.
pub open spec fn with_session(s: Seq<SessionView>, entry: SessionView) -> Seq<SessionView> {
    if has_connection(s, entry.connection) {
        s.update(place_of(s, entry.connection), entry)
    } else {
        s.push(entry)
    }
}

/// `s` without the entry of `connection`; the others keep their order.
pub open spec fn without_session(s: Seq<SessionView>, connection: Seq<char>) -> Seq<SessionView> {
    if has_connection(s, connection) {
        s.remove(place_of(s, connection))
    } else {
        s
    }
}

/// The sessions in `v`, as mathematical values.
pub open spec fn sessions_view(v: Seq<Session>) -> Seq<SessionView> {
    v.map_values(|s: Session| s@)
}

/// The sessions of one instance, in the order in which they registered.
#[derive(Debug, PartialEq)]
pub struct SessionTable {
    entries: Vec<Session>,
}

impl View for SessionTable {
    type V = Seq<SessionView>;

    closed spec fn view(&self) -> Seq<SessionView> {
        sessions_view(self.entries@)
    }
}

impl SessionTable {
    /// Every connection id has at most one entry.
    #[verifier::type_invariant]
    closed spec fn well_formed(&self) -> bool {
        distinct(self@)
    }

    pub fn new() -> (t: Self)
        ensures
            t@ == Seq::<SessionView>::empty(),
            distinct(t@),
    {
        let t = SessionTable { entries: Vec::new() };
        assert(t@ =~= Seq::<SessionView>::empty());
        t
    }

    pub fn len(&self) -> (n: usize)
        ensures
            n == self@.len(),
            distinct(self@),
    {
        proof {
            use_type_invariant(self);
        }
        self.entries.len()
    }

    /// The entry at `i`, in registration order.
    pub fn get(&self, i: usize) -> (s: &Session)
        requires
            i < self@.len(),
        ensures
            s@ == self@[i as int],
    {
        &self.entries[i]
    }

    /// Where `connection` is registered, if it is.
    pub fn find(&self, connection: &String) -> (r: Option<usize>)
        ensures
            r is Some <==> has_connection(self@, connection@),
            r is Some ==> r.unwrap() == place_of(self@, connection@) && r.unwrap() < self@.len(),
    {
        proof {
            use_type_invariant(self);
        }
        let mut i: usize = 0;
        while i < self.entries.len()
            invariant
                i <= self.entries.len(),
                distinct(self@),
                forall|j: int| 0 <= j < i ==> (#[trigger] self@[j]).connection != connection@,
            decreases self.entries.len() - i,
        {
            if self.entries[i].connection == *connection {
                assert(self@[i as int].connection == connection@);
                return Some(i);
            }
            i += 1;
        }
        None
    }

    /// The endpoint tag under which `connection` is registered.
    pub fn endpoint_of(&self, connection: &String) -> (r: Option<&String>)
        ensures
            match r {
                Some(e) => has_connection(self@, connection@) && e@ == self@[place_of(
                    self@,
                    connection@,
                )].endpoint,
                None => !has_connection(self@, connection@),
            },
    {
        match self.find(connection) {
            Some(i) => Some(&self.entries[i].endpoint),
            None => None,
        }
    }

    /// Registers a session. A connection that is already known keeps its place
    /// and takes the new endpoint tag.
    pub fn insert(&mut self, connection: String, endpoint: String)
        ensures
            final(self)@ == with_session(
                old(self)@,
                SessionView { connection: connection@, endpoint: endpoint@ },
            ),
            distinct(old(self)@),
            distinct(final(self)@),
    {
        proof {
            use_type_invariant(&*self);
        }
        let found = self.find(&connection);
        let entry = Session { connection, endpoint };
        let mut entries: Vec<Session> = Vec::new();
        std::mem::swap(&mut self.entries, &mut entries);
        match found {
            Some(i) => {
                entries[i] = entry;
                assert(sessions_view(entries@) =~= old(self)@.update(i as int, entry@));
            },
            None => {
                entries.push(entry);
                assert(sessions_view(entries@) =~= old(self)@.push(entry@));
            },
        }
        assert(distinct(sessions_view(entries@)));
        self.entries = entries;
    }

    /// Forgets the session of `connection`. Returns whether there was one.
    pub fn remove(&mut self, connection: &String) -> (was_there: bool)
        ensures
            final(self)@ == without_session(old(self)@, connection@),
            distinct(old(self)@),
            distinct(final(self)@),
            was_there == has_connection(old(self)@, connection@),
            !has_connection(final(self)@, connection@),
    {
        proof {
            use_type_invariant(&*self);
        }
        match self.find(connection) {
            Some(i) => {
                let mut entries: Vec<Session> = Vec::new();
                std::mem::swap(&mut self.entries, &mut entries);
                entries.remove(i);
                assert(sessions_view(entries@) =~= old(self)@.remove(i as int));
                assert(distinct(sessions_view(entries@)));
                self.entries = entries;
                true
            },
            None => false,
        }
    }
}

} // verus!
