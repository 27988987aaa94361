use vstd::prelude::*;
use crate::text::str_eq;

verus! {

/// Session state tracked by the portal backend: the capture preferences
/// accumulated for one broker session.
#[derive(Debug, Clone)]
pub struct Session {
    /// Requested source types (bitmask: monitor=1, window=2, virtual=4).
    pub source_types: u32,
    /// Requested cursor mode (bitmask: hidden=1, embedded=2, metadata=4).
    pub cursor_mode: u32,
    /// Persistence of the grant (0=none, 1=transient, 2=persistent).
    pub persist_mode: u32,
    /// Restore token, if the broker supplied one.
    pub restore_token: Option<String>,
}

/// Ghost mirror of `Session`, with the token as a character sequence.
#[verifier::ext_equal]
pub ghost struct SessionView {
    pub source_types: u32,
    pub cursor_mode: u32,
    pub persist_mode: u32,
    pub restore_token: Option<Seq<char>>,
}

impl View for Session {
    type V = SessionView;

    open spec fn view(&self) -> SessionView {
        SessionView {
            source_types: self.source_types,
            cursor_mode: self.cursor_mode,
            persist_mode: self.persist_mode,
            restore_token: match self.restore_token {
                Some(t) => Some(t@),
                None => None,
            },
        }
    }
}

/// The preferences a session is created with: no source types requested
/// yet, embedded cursor, no persistence, no restore token.
pub open spec fn default_session() -> SessionView {
    SessionView { source_types: 0, cursor_mode: 2, persist_mode: 0, restore_token: None }
}

/// Each handle appears at most once in the table.
pub open spec fn keys_unique(s: Seq<(String, Session)>) -> bool {
    forall|i: int, j: int| 0 <= i < j < s.len() ==> s[i].0@ != s[j].0@
}

/// The table read as a map from handle to session view.
pub open spec fn entries_map(s: Seq<(String, Session)>) -> Map<Seq<char>, SessionView>
    decreases s.len(),
{
    if s.len() == 0 {
        Map::empty()
    } else {
        entries_map(s.drop_last()).insert(s.last().0@, s.last().1@)
    }
}

proof fn lemma_keys_unique_drop_last(s: Seq<(String, Session)>)
    requires
        keys_unique(s),
        s.len() > 0,
    ensures
        keys_unique(s.drop_last()),
{
    let sub = s.drop_last();
    assert forall|i: int, j: int| 0 <= i < j < sub.len() implies sub[i].0@ != sub[j].0@ by {
        assert(sub[i] == s[i]);
        assert(sub[j] == s[j]);
    }
}

proof fn lemma_entries_contains(s: Seq<(String, Session)>, h: Seq<char>)
    ensures
        entries_map(s).contains_key(h) <==> exists|i: int| 0 <= i < s.len() && s[i].0@ == h,
    decreases s.len(),
{
    if s.len() > 0 {
        let sub = s.drop_last();
        lemma_entries_contains(sub, h);
        if s.last().0@ == h {
            assert(s[s.len() - 1].0@ == h);
        } else {
            if entries_map(s).contains_key(h) {
                let i = choose|i: int| 0 <= i < sub.len() && sub[i].0@ == h;
                assert(sub[i] == s[i]);
                assert(s[i].0@ == h);
            }
            if exists|i: int| 0 <= i < s.len() && s[i].0@ == h {
                let i = choose|i: int| 0 <= i < s.len() && s[i].0@ == h;
                if i < s.len() - 1 {
                    assert(sub[i] == s[i]);
                    assert(sub[i].0@ == h);
                } else {
                    assert(s.last() == s[s.len() - 1]);
                }
            }
        }
    }
}

proof fn lemma_entries_index(s: Seq<(String, Session)>, i: int)
    requires
        keys_unique(s),
        0 <= i < s.len(),
    ensures
        entries_map(s).contains_key(s[i].0@),
        entries_map(s)[s[i].0@] == s[i].1@,
    decreases s.len(),
{
    if i == s.len() - 1 {
        assert(s.last() == s[s.len() - 1]);
    } else {
        let sub = s.drop_last();
        lemma_keys_unique_drop_last(s);
        assert(sub[i] == s[i]);
        lemma_entries_index(sub, i);
        assert(s.last() == s[s.len() - 1]);
        assert(s[s.len() - 1].0@ != s[i].0@);
    }
}

proof fn lemma_entries_push(s: Seq<(String, Session)>, k: String, v: Session)
    ensures
        entries_map(s.push((k, v))) == entries_map(s).insert(k@, v@),
{
    let p = s.push((k, v));
    assert(p.drop_last() =~= s);
    assert(p.last() == (k, v));
}

proof fn lemma_keys_unique_push(s: Seq<(String, Session)>, k: String, v: Session)
    requires
        keys_unique(s),
        forall|i: int| 0 <= i < s.len() ==> s[i].0@ != k@,
    ensures
        keys_unique(s.push((k, v))),
{
    let p = s.push((k, v));
    assert forall|i: int, j: int| 0 <= i < j < p.len() implies p[i].0@ != p[j].0@ by {
        assert(p[i] == s[i]);
        if j < p.len() - 1 {
            assert(p[j] == s[j]);
        } else {
            assert(p[j] == (k, v));
        }
    }
}

proof fn lemma_keys_unique_remove(s: Seq<(String, Session)>, i: int)
    requires
        keys_unique(s),
        0 <= i < s.len(),
    ensures
        keys_unique(s.remove(i)),
{
    let r = s.remove(i);
    assert forall|a: int, b: int| 0 <= a < b < r.len() implies r[a].0@ != r[b].0@ by {
        let a0 = if a < i { a } else { a + 1 };
        let b0 = if b < i { b } else { b + 1 };
        assert(r[a] == s[a0]);
        assert(r[b] == s[b0]);
    }
}

proof fn lemma_entries_remove(s: Seq<(String, Session)>, i: int)
    requires
        keys_unique(s),
        0 <= i < s.len(),
    ensures
        entries_map(s.remove(i)) == entries_map(s).remove(s[i].0@),
    decreases s.len(),
{
    let k = s[i].0@;
    if i == s.len() - 1 {
        assert(s.remove(i) =~= s.drop_last());
        lemma_entries_contains(s.drop_last(), k);
        assert forall|j: int| 0 <= j < s.drop_last().len() implies s.drop_last()[j].0@ != k by {
            assert(s.drop_last()[j] == s[j]);
        }
        assert(!entries_map(s.drop_last()).contains_key(k));
        assert(s.last() == s[s.len() - 1]);
        assert(entries_map(s).remove(k) =~= entries_map(s.drop_last()));
    } else {
        let sub = s.drop_last();
        lemma_keys_unique_drop_last(s);
        assert(sub[i] == s[i]);
        lemma_entries_remove(sub, i);
        let r = s.remove(i);
        assert(r.drop_last() =~= sub.remove(i));
        assert(r.last() == s.last());
        assert(s.last() == s[s.len() - 1]);
        assert(s[s.len() - 1].0@ != k);
        assert(entries_map(sub).remove(k).insert(s.last().0@, s.last().1@) =~= entries_map(
            sub,
        ).insert(s.last().0@, s.last().1@).remove(k));
        assert(entries_map(r) == entries_map(sub.remove(i)).insert(s.last().0@, s.last().1@));
    }
}

/// A field-by-field copy whose view is provably the original's.
fn dup_session(s: &Session) -> (r: Session)
    ensures
        r@ == s@,
{
    Session {
        source_types: s.source_types,
        cursor_mode: s.cursor_mode,
        persist_mode: s.persist_mode,
        restore_token: match &s.restore_token {
            Some(t) => Some(t.clone()),
            None => None,
        },
    }
}

/// Portal backend state: the table of active sessions by handle.
///
/// The surrounding binary owns one `PortalState` behind its dispatcher's
/// mutual-exclusion lock; every operation here is a short, synchronous
/// table operation, so the lock is never held across an IPC exchange.
#[derive(Debug)]
pub struct PortalState {
    /// Active sessions, keyed by their broker-supplied handle; a handle
    /// occurs at most once (see `wf`).
    pub sessions: Vec<(String, Session)>,
}

impl View for PortalState {
    type V = Map<Seq<char>, SessionView>;

    open spec fn view(&self) -> Map<Seq<char>, SessionView> {
        entries_map(self.sessions@)
    }
}

impl PortalState {
    /// The table's invariant: handles are unique.
    pub open spec fn wf(&self) -> bool {
        keys_unique(self.sessions@)
    }

    /// An empty table.
    pub fn new() -> (r: PortalState)
        ensures
            r.wf(),
            r@ == Map::<Seq<char>, SessionView>::empty(),
    {
        PortalState { sessions: Vec::new() }
    }

    fn find_index(&self, handle: &str) -> (r: Option<usize>)
        ensures
            match r {
                Some(i) => i < self.sessions@.len() && self.sessions@[i as int].0@ == handle@,
                None => forall|i: int|
                    0 <= i < self.sessions@.len() ==> self.sessions@[i].0@ != handle@,
            },
    {
        let n = self.sessions.len();
        let mut i: usize = 0;
        while i < n
            invariant
                n == self.sessions@.len(),
                i <= n,
                forall|j: int| 0 <= j < i ==> self.sessions@[j].0@ != handle@,
            decreases n - i,
        {
            if str_eq(self.sessions[i].0.as_str(), handle) {
                return Some(i);
            }
            i = i + 1;
        }
        None
    }

    /// Inserts a session with default preferences for `handle`,
    /// overwriting any prior entry for the same handle: a duplicate
    /// create is not an error.
    pub fn create(&mut self, handle: &str)
        requires
            old(self).wf(),
        ensures
            final(self).wf(),
            final(self)@ == old(self)@.insert(handle@, default_session()),
            final(self)@[handle@] == default_session(),
            forall|k: Seq<char>|
                k != handle@ && old(self)@.contains_key(k) ==> final(self)@.contains_key(k)
                    && final(self)@[k] == old(self)@[k],
    {
        match self.find_index(handle) {
            Some(i) => {
                proof {
                    lemma_entries_remove(self.sessions@, i as int);
                    lemma_keys_unique_remove(self.sessions@, i as int);
                    let pre = self.sessions@;
                    assert forall|j: int| 0 <= j < pre.remove(i as int).len() implies pre.remove(
                        i as int,
                    )[j].0@ != handle@ by {
                        let j0 = if j < i { j } else { j + 1 };
                        assert(pre.remove(i as int)[j] == pre[j0]);
                    }
                }
                self.sessions.remove(i);
            },
            None => {},
        }
        let ghost mid = self.sessions@;
        let fresh = Session { source_types: 0, cursor_mode: 2, persist_mode: 0, restore_token: None };
        let key = handle.to_owned();
        proof {
            lemma_entries_push(mid, key, fresh);
            lemma_keys_unique_push(mid, key, fresh);
        }
        self.sessions.push((key, fresh));
        proof {
            assert(old(self)@.remove(handle@).insert(handle@, default_session()) =~= old(
                self,
            )@.insert(handle@, default_session()));
        }
    }

    /// Overwrites the four preference fields of the session for `handle`,
    /// if it is known; an unknown handle leaves the table untouched.
    /// Returns whether the handle was known, so that the caller can log
    /// the dropped update.
    pub fn update(
        &mut self,
        handle: &str,
        source_types: u32,
        cursor_mode: u32,
        persist_mode: u32,
        restore_token: Option<String>,
    ) -> (found: bool)
        requires
            old(self).wf(),
        ensures
            final(self).wf(),
            found == old(self)@.contains_key(handle@),
            found ==> final(self)@ == old(self)@.insert(
                handle@,
                (SessionView {
                    source_types,
                    cursor_mode,
                    persist_mode,
                    restore_token: match restore_token {
                        Some(t) => Some(t@),
                        None => None,
                    },
                }),
            ),
            !found ==> final(self)@ == old(self)@,
            forall|k: Seq<char>|
                k != handle@ && old(self)@.contains_key(k) ==> final(self)@.contains_key(k)
                    && final(self)@[k] == old(self)@[k],
    {
        proof {
            lemma_entries_contains(self.sessions@, handle@);
        }
        match self.find_index(handle) {
            Some(i) => {
                proof {
                    lemma_entries_remove(self.sessions@, i as int);
                    lemma_keys_unique_remove(self.sessions@, i as int);
                    let pre = self.sessions@;
                    assert forall|j: int| 0 <= j < pre.remove(i as int).len() implies pre.remove(
                        i as int,
                    )[j].0@ != handle@ by {
                        let j0 = if j < i { j } else { j + 1 };
                        assert(pre.remove(i as int)[j] == pre[j0]);
                    }
                }
                self.sessions.remove(i);
                let ghost mid = self.sessions@;
                let updated = Session { source_types, cursor_mode, persist_mode, restore_token };
                let key = handle.to_owned();
                proof {
                    lemma_entries_push(mid, key, updated);
                    lemma_keys_unique_push(mid, key, updated);
                }
                self.sessions.push((key, updated));
                proof {
                    assert(old(self)@.remove(handle@).insert(handle@, updated@) =~= old(
                        self,
                    )@.insert(handle@, updated@));
                }
                true
            },
            None => {
                false
            },
        }
    }

    /// Read-only lookup of the session for `handle`.
    pub fn get(&self, handle: &str) -> (r: Option<Session>)
        requires
            self.wf(),
        ensures
            match r {
                Some(s) => self@.contains_key(handle@) && s@ == self@[handle@],
                None => !self@.contains_key(handle@),
            },
    {
        proof {
            lemma_entries_contains(self.sessions@, handle@);
        }
        match self.find_index(handle) {
            Some(i) => {
                proof {
                    lemma_entries_index(self.sessions@, i as int);
                }
                Some(dup_session(&self.sessions[i].1))
            },
            None => None,
        }
    }
}

impl Default for PortalState {
    /// Same as `PortalState::new`: an empty table.
    fn default() -> (r: PortalState)
        ensures
            r.wf(),
            r@ == Map::<Seq<char>, SessionView>::empty(),
    {
        PortalState::new()
    }
}

} // verus!
