//! Study sessions: a named pointer to a folder / course / set, and the store
//! that keeps all of them together with the one, if any, that is active.

use crate::ident::{id_text, id_to_string, is_random_id, new_id};
use crate::timestamp::Timestamp;
use vstd::prelude::*;

verus! {

/// One study session: where captures are filed while it is active.
#[derive(Debug, PartialEq)]
pub struct SessionState {
    pub id: u128,
    pub name: String,
    pub folder_id: u128,
    pub course_id: u128,
    pub set_id: u128,
    pub created_at: Timestamp,
    pub last_used: Timestamp,
}

/// What a session record says, with its name as a sequence of characters.
pub struct SessionView {
    pub id: u128,
    pub name: Seq<char>,
    pub folder_id: u128,
    pub course_id: u128,
    pub set_id: u128,
    pub created_at: Timestamp,
    pub last_used: Timestamp,
}

impl SessionView {
    /// A record was not used before it was made.
    pub open spec fn wf(self) -> bool {
        self.created_at.not_after(self.last_used)
    }

    /// Whether the record points at this folder, course and set.
    pub open spec fn in_context(self, folder_id: u128, course_id: u128, set_id: u128) -> bool {
        self.folder_id == folder_id && self.course_id == course_id && self.set_id == set_id
    }

    /// The record after it was used at `now`. A clock reading from before
    /// the record was made counts as the moment it was made.
    pub open spec fn used_at(self, now: Timestamp) -> SessionView {
        SessionView { last_used: now.later_of(self.created_at), ..self }
    }
}

impl View for SessionState {
    type V = SessionView;

    open spec fn view(&self) -> SessionView {
        SessionView {
            id: self.id,
            name: self.name@,
            folder_id: self.folder_id,
            course_id: self.course_id,
            set_id: self.set_id,
            created_at: self.created_at,
            last_used: self.last_used,
        }
    }
}

impl Clone for SessionState {
    fn clone(&self) -> (r: Self)
        ensures
            r == *self,
    {
        SessionState {
            id: self.id,
            name: self.name.clone(),
            folder_id: self.folder_id,
            course_id: self.course_id,
            set_id: self.set_id,
            created_at: self.created_at,
            last_used: self.last_used,
        }
    }
}

impl SessionState {
    /// A record made at `at` under the identifier `id`, not used since.
    pub fn with_identity(
        id: u128,
        name: String,
        folder_id: u128,
        course_id: u128,
        set_id: u128,
        at: Timestamp,
    ) -> (r: Self)
        ensures
            r@ == (SessionView {
                id,
                name: name@,
                folder_id,
                course_id,
                set_id,
                created_at: at,
                last_used: at,
            }),
            r@.wf(),
    {
        SessionState { id, name, folder_id, course_id, set_id, created_at: at, last_used: at }
    }

    /// A new record for this context, under a fresh random identifier, made
    /// and last used now.
    pub fn new(name: String, folder_id: u128, course_id: u128, set_id: u128) -> (r: Self)
        ensures
            r@.name == name@,
            r@.in_context(folder_id, course_id, set_id),
            r@.last_used == r@.created_at,
            r@.wf(),
            is_random_id(r.id),
    {
        let now = Timestamp::now();
        SessionState::with_identity(new_id(), name, folder_id, course_id, set_id, now)
    }

    /// Marks the record as used at `now`.
    pub fn mark_used_at(&mut self, now: Timestamp)
        ensures
            final(self)@ == old(self)@.used_at(now),
            final(self)@.wf(),
    {
        if now.is_not_after(&self.created_at) {
            self.last_used = self.created_at;
        } else {
            self.last_used = now;
        }
    }

    /// Marks the record as used now, by the system clock.
    pub fn update_last_used(&mut self)
        ensures
            exists|now: Timestamp| final(self)@ == old(self)@.used_at(now),
            final(self)@.wf(),
    {
        let now = Timestamp::now();
        self.mark_used_at(now);
    }
}

/// All saved sessions, in the order in which they were added, and the
/// identifier of the active one.
#[derive(Debug)]
pub struct SessionManager {
    pub sessions: Vec<SessionState>,
    pub active_session_id: Option<u128>,
}

/// What a store holds: its records in order, and the active identifier.
pub struct ManagerView {
    pub sessions: Seq<SessionView>,
    pub active_session_id: Option<u128>,
}

/// The words with which an operation on an unknown identifier fails.
pub open spec fn not_found_text(id: u128) -> Seq<char> {
    "Session with id "@ + id_text(id) + " not found"@
}

impl ManagerView {
    /// The store with no record and no active session.
    pub open spec fn empty() -> ManagerView {
        ManagerView { sessions: Seq::empty(), active_session_id: None }
    }

    /// Whether some record carries this identifier.
    pub open spec fn contains_id(self, id: u128) -> bool {
        exists|i: int| 0 <= i < self.sessions.len() && self.sessions[i].id == id
    }

    /// Whether the record at `i` is the first that carries this identifier.
    pub open spec fn is_first(self, id: u128, i: int) -> bool {
        &&& 0 <= i < self.sessions.len()
        &&& self.sessions[i].id == id
        &&& forall|j: int| 0 <= j < i ==> self.sessions[j].id != id
    }

    /// Where the first record with this identifier stands, if there is one.
    pub open spec fn position(self, id: u128) -> int {
        choose|i: int| self.is_first(id, i)
    }

    /// Whether some record points at this folder, course and set.
    pub open spec fn has_context(self, folder_id: u128, course_id: u128, set_id: u128) -> bool {
        exists|i: int|
            0 <= i < self.sessions.len() && #[trigger] self.sessions[i].in_context(
                folder_id,
                course_id,
                set_id,
            )
    }

    /// The active record: the first one that carries the active identifier.
    /// There is none where no identifier is active, nor where the active
    /// identifier names no record.
    pub open spec fn active(self) -> Option<SessionView> {
        match self.active_session_id {
            Some(id) => if self.contains_id(id) {
                Some(self.sessions[self.position(id)])
            } else {
                None
            },
            None => None,
        }
    }

    /// Every record is well-formed, and the active identifier, if there is
    /// one, names a record of the store.
    pub open spec fn wf(self) -> bool {
        &&& forall|i: int| 0 <= i < self.sessions.len() ==> (#[trigger] self.sessions[i]).wf()
        &&& self.active_session_id matches Some(id) ==> self.contains_id(id)
    }

    /// The store after `record` was added at the end, and made active if
    /// `start` says so.
    pub open spec fn with_session(self, record: SessionView, start: bool) -> ManagerView {
        ManagerView {
            sessions: self.sessions.push(record),
            active_session_id: if start {
                Some(record.id)
            } else {
                self.active_session_id
            },
        }
    }

    /// The store after a request to start the session with this identifier
    /// at `now`: the first record that carries it is used at `now` and made
    /// active. A store that holds no such record stays as it is.
    pub open spec fn started(self, id: u128, now: Timestamp) -> ManagerView {
        if self.contains_id(id) {
            ManagerView {
                sessions: self.sessions.update(
                    self.position(id),
                    self.sessions[self.position(id)].used_at(now),
                ),
                active_session_id: Some(id),
            }
        } else {
            self
        }
    }

    /// The store with no session active.
    pub open spec fn ended(self) -> ManagerView {
        ManagerView { sessions: self.sessions, active_session_id: None }
    }

    /// The store after a request to delete the session with this identifier:
    /// the first record that carries it is taken out, and no session is
    /// active afterwards if that identifier was the active one. A store that
    /// holds no such record stays as it is.
    pub open spec fn without(self, id: u128) -> ManagerView {
        if self.contains_id(id) {
            ManagerView {
                sessions: self.sessions.remove(self.position(id)),
                active_session_id: if self.active_session_id == Some(id) {
                    None
                } else {
                    self.active_session_id
                },
            }
        } else {
            self
        }
    }
}

/// The first record with an identifier is where `position` says, and no
/// other index is first.
pub proof fn lemma_position(store: ManagerView, id: u128, i: int)
    requires
        store.is_first(id, i),
    ensures
        store.contains_id(id),
        store.position(id) == i,
{
    let p = store.position(id);
    assert(store.is_first(id, p));
    if p < i {
        assert(store.sessions[p].id != id);
    } else if i < p {
        assert(store.sessions[i].id != id);
    }
}

/// A store that holds an identifier has a first record with it.
pub proof fn lemma_position_exists(store: ManagerView, id: u128)
    requires
        store.contains_id(id),
    ensures
        store.is_first(id, store.position(id)),
{
    let k = choose|i: int| 0 <= i < store.sessions.len() && store.sessions[i].id == id;
    lemma_first_up_to(store, id, k);
}

/// Below an index that carries the identifier, some index is the first.
proof fn lemma_first_up_to(store: ManagerView, id: u128, k: int)
    requires
        0 <= k < store.sessions.len(),
        store.sessions[k].id == id,
    ensures
        exists|i: int| store.is_first(id, i),
    decreases k,
{
    if exists|j: int| 0 <= j < k && store.sessions[j].id == id {
        let j = choose|j: int| 0 <= j < k && store.sessions[j].id == id;
        lemma_first_up_to(store, id, j);
    } else {
        assert(store.is_first(id, k));
    }
}

impl View for SessionManager {
    type V = ManagerView;

    open spec fn view(&self) -> ManagerView {
        ManagerView {
            sessions: self.sessions@.map_values(|s: SessionState| s@),
            active_session_id: self.active_session_id,
        }
    }
}

impl Clone for SessionManager {
    fn clone(&self) -> (r: Self)
        ensures
            r.sessions@ == self.sessions@,
            r.active_session_id == self.active_session_id,
            r@ == self@,
    {
        let mut sessions: Vec<SessionState> = Vec::new();
        let mut i: usize = 0;
        while i < self.sessions.len()
            invariant
                i <= self.sessions.len(),
                sessions@ == self.sessions@.subrange(0, i as int),
            decreases self.sessions.len() - i,
        {
            sessions.push(self.sessions[i].clone());
            assert(sessions@ =~= self.sessions@.subrange(0, i + 1));
            i += 1;
        }
        assert(sessions@ =~= self.sessions@);
        SessionManager { sessions, active_session_id: self.active_session_id }
    }
}

impl SessionManager {
    /// An empty store.
    pub fn new() -> (r: Self)
        ensures
            r@ == ManagerView::empty(),
            r@.wf(),
    {
        let r = SessionManager { sessions: Vec::new(), active_session_id: None };
        assert(r@.sessions =~= Seq::empty());
        r
    }

    /// Where the first record with this identifier stands.
    fn index_of(&self, id: u128) -> (r: Option<usize>)
        ensures
            match r {
                Some(i) => self@.is_first(id, i as int),
                None => !self@.contains_id(id),
            },
    {
        let mut i: usize = 0;
        while i < self.sessions.len()
            invariant
                i <= self.sessions.len(),
                forall|j: int| 0 <= j < i ==> self@.sessions[j].id != id,
            decreases self.sessions.len() - i,
        {
            if self.sessions[i].id == id {
                return Some(i);
            }
            i += 1;
        }
        None
    }

    /// The words with which an operation on an unknown identifier fails.
    fn not_found_message(id: u128) -> (why: String)
        ensures
            why@ == not_found_text(id),
    {
        let mut why = "Session with id ".to_owned();
        let shown = id_to_string(id);
        why.append(shown.as_str());
        why.append(" not found");
        why
    }

    /// The active session: the first record that carries the active
    /// identifier, if there is such a record.
    pub fn get_active_session(&self) -> (r: Option<&SessionState>)
        ensures
            match r {
                Some(s) => {
                    &&& self@.active() == Some(s@)
                    &&& self.active_session_id matches Some(id)
                    &&& *s == self.sessions@[self@.position(id)]
                },
                None => self@.active() is None,
            },
    {
        match self.active_session_id {
            Some(id) => {
                proof {
                    if self@.contains_id(id) {
                        lemma_position_exists(self@, id);
                    }
                }
                self.get_session_by_id(id)
            },
            None => None,
        }
    }

    /// The active session, to be changed in place. What the caller leaves in
    /// the record is what the store then holds at its place.
    pub fn get_active_session_mut(&mut self) -> (r: Option<&mut SessionState>)
        ensures
            match r {
                Some(s) => {
                    &&& old(self)@.active() == Some((*s)@)
                    &&& old(self).active_session_id matches Some(id)
                    &&& *s == old(self).sessions@[old(self)@.position(id)]
                    &&& final(self).sessions@ == old(self).sessions@.update(
                        old(self)@.position(id),
                        *final(s),
                    )
                    &&& final(self).active_session_id == old(self).active_session_id
                },
                None => old(self)@.active() is None && *final(self) == *old(self),
            },
    {
        match self.active_session_id {
            Some(id) => match self.index_of(id) {
                Some(i) => {
                    proof {
                        lemma_position(self@, id, i as int);
                    }
                    Some(&mut self.sessions[i])
                },
                None => None,
            },
            None => None,
        }
    }

    /// The folder, course and set of the active session.
    pub fn get_active_session_context(&self) -> (r: Option<(u128, u128, u128)>)
        ensures
            match self@.active() {
                Some(s) => r == Some((s.folder_id, s.course_id, s.set_id)),
                None => r is None,
            },
    {
        match self.get_active_session() {
            Some(s) => Some((s.folder_id, s.course_id, s.set_id)),
            None => None,
        }
    }

    /// Makes the first record with this identifier the active session, used
    /// at `now`. A store without such a record is left as it is.
    pub fn start_session_at(&mut self, session_id: u128, now: Timestamp) -> (r: Result<(), String>)
        ensures
            r is Ok <==> old(self)@.contains_id(session_id),
            r matches Err(why) ==> why@ == not_found_text(session_id) && *final(self) == *old(self),
            final(self)@ == old(self)@.started(session_id, now),
            old(self)@.wf() ==> final(self)@.wf(),
    {
        match self.index_of(session_id) {
            Some(i) => {
                proof {
                    lemma_position(self@, session_id, i as int);
                }
                self.sessions[i].mark_used_at(now);
                self.active_session_id = Some(session_id);
                proof {
                    assert(final(self)@.sessions =~= old(self)@.sessions.update(
                        i as int,
                        old(self)@.sessions[i as int].used_at(now),
                    ));
                    if old(self)@.wf() {
                        lemma_started_wf(old(self)@, session_id, now);
                    }
                }
                Ok(())
            },
            None => Err(Self::not_found_message(session_id)),
        }
    }

    /// Makes the first record with this identifier the active session, used
    /// now by the system clock. A store without such a record is left as it is.
    pub fn start_session(&mut self, session_id: u128) -> (r: Result<(), String>)
        ensures
            r is Ok <==> old(self)@.contains_id(session_id),
            r matches Err(why) ==> why@ == not_found_text(session_id) && *final(self) == *old(self),
            exists|now: Timestamp| final(self)@ == old(self)@.started(session_id, now),
            old(self)@.wf() ==> final(self)@.wf(),
    {
        let now = Timestamp::now();
        self.start_session_at(session_id, now)
    }

    /// Leaves no session active.
    pub fn end_session(&mut self)
        ensures
            final(self)@ == old(self)@.ended(),
            old(self)@.wf() ==> final(self)@.wf(),
    {
        self.active_session_id = None;
    }

    /// Adds a record at the end, and makes it the active session if
    /// `start_immediately` says so.
    pub fn add_session(&mut self, session: SessionState, start_immediately: bool)
        ensures
            final(self)@ == old(self)@.with_session(session@, start_immediately),
            old(self)@.wf() && session@.wf() ==> final(self)@.wf(),
    {
        let id = session.id;
        self.sessions.push(session);
        if start_immediately {
            self.active_session_id = Some(id);
        }
        proof {
            assert(final(self)@.sessions =~= old(self)@.sessions.push(session@));
            if old(self)@.wf() && session@.wf() {
                lemma_with_session_wf(old(self)@, session@, start_immediately);
            }
        }
    }

    /// Makes a new record for this context, adds it at the end, and makes it
    /// the active session if `start_immediately` says so. Whether another
    /// record already points at the same context is not looked at.
    pub fn create_session(
        &mut self,
        name: String,
        folder_id: u128,
        course_id: u128,
        set_id: u128,
        start_immediately: bool,
    ) -> (r: SessionState)
        ensures
            final(self)@ == old(self)@.with_session(r@, start_immediately),
            start_immediately ==> final(self).active_session_id == Some(r.id),
            r@.name == name@,
            r@.in_context(folder_id, course_id, set_id),
            r@.last_used == r@.created_at,
            r@.wf(),
            is_random_id(r.id),
            final(self)@.has_context(folder_id, course_id, set_id),
            old(self)@.wf() ==> final(self)@.wf(),
    {
        let session = SessionState::new(name, folder_id, course_id, set_id);
        let copy = session.clone();
        self.add_session(copy, start_immediately);
        proof {
            lemma_created_context_exists(old(self)@, session@, start_immediately);
        }
        session
    }

    /// Takes the first record with this identifier out of the store; no
    /// session is active afterwards if it was the active one. A store
    /// without such a record is left as it is.
    pub fn delete_session(&mut self, session_id: u128) -> (r: Result<(), String>)
        ensures
            r is Ok <==> old(self)@.contains_id(session_id),
            r matches Err(why) ==> why@ == not_found_text(session_id) && *final(self) == *old(self),
            final(self)@ == old(self)@.without(session_id),
            old(self)@.wf() ==> final(self)@.wf(),
    {
        match self.index_of(session_id) {
            Some(i) => {
                proof {
                    lemma_position(self@, session_id, i as int);
                }
                let _ = self.sessions.remove(i);
                if self.active_session_id == Some(session_id) {
                    self.active_session_id = None;
                }
                proof {
                    assert(final(self)@.sessions =~= old(self)@.sessions.remove(i as int));
                    if old(self)@.wf() {
                        lemma_without_wf(old(self)@, session_id);
                    }
                }
                Ok(())
            },
            None => Err(Self::not_found_message(session_id)),
        }
    }

    /// All records, in the order in which they were added.
    pub fn get_all_sessions(&self) -> (r: &[SessionState])
        ensures
            r@ == self.sessions@,
    {
        self.sessions.as_slice()
    }

    /// The first record with this identifier.
    pub fn get_session_by_id(&self, session_id: u128) -> (r: Option<&SessionState>)
        ensures
            match r {
                Some(s) => self@.contains_id(session_id) && *s == self.sessions@[self@.position(
                    session_id,
                )],
                None => !self@.contains_id(session_id),
            },
    {
        match self.index_of(session_id) {
            Some(i) => {
                proof {
                    lemma_position(self@, session_id, i as int);
                }
                Some(&self.sessions[i])
            },
            None => None,
        }
    }

    /// Says whether some record, active or not, points at exactly this
    /// folder, course and set.
    pub fn session_exists_for_context(&self, folder_id: u128, course_id: u128, set_id: u128) -> (r:
        bool)
        ensures
            r == self@.has_context(folder_id, course_id, set_id),
    {
        let mut i: usize = 0;
        while i < self.sessions.len()
            invariant
                i <= self.sessions.len(),
                forall|j: int|
                    0 <= j < i ==> !(#[trigger] self@.sessions[j]).in_context(
                        folder_id,
                        course_id,
                        set_id,
                    ),
            decreases self.sessions.len() - i,
        {
            let s = &self.sessions[i];
            if s.folder_id == folder_id && s.course_id == course_id && s.set_id == set_id {
                assert(self@.sessions[i as int].in_context(folder_id, course_id, set_id));
                return true;
            }
            i += 1;
        }
        false
    }
}

/// Adding a well-formed record keeps a store well-formed.
pub proof fn lemma_with_session_wf(store: ManagerView, record: SessionView, start: bool)
    requires
        store.wf(),
        record.wf(),
    ensures
        store.with_session(record, start).wf(),
{
    let after = store.with_session(record, start);
    assert(after.sessions[store.sessions.len() as int].id == record.id);
    if let Some(id) = store.active_session_id {
        let k = choose|i: int| 0 <= i < store.sessions.len() && store.sessions[i].id == id;
        assert(after.sessions[k].id == id);
    }
}

/// A request to start a session keeps a store well-formed.
pub proof fn lemma_started_wf(store: ManagerView, id: u128, now: Timestamp)
    requires
        store.wf(),
    ensures
        store.started(id, now).wf(),
{
    if store.contains_id(id) {
        lemma_position_exists(store, id);
        let after = store.started(id, now);
        assert(after.sessions[store.position(id)].id == id);
    }
}

/// Ending the active session keeps a store well-formed.
pub proof fn lemma_ended_wf(store: ManagerView)
    requires
        store.wf(),
    ensures
        store.ended().wf(),
{
}

/// A request to delete a session keeps a store well-formed: the active
/// identifier never outlives its record.
pub proof fn lemma_without_wf(store: ManagerView, id: u128)
    requires
        store.wf(),
    ensures
        store.without(id).wf(),
{
    if store.contains_id(id) {
        lemma_position_exists(store, id);
        let p = store.position(id);
        let after = store.without(id);
        if let Some(other) = after.active_session_id {
            let k = choose|i: int| 0 <= i < store.sessions.len() && store.sessions[i].id == other;
            if k < p {
                assert(after.sessions[k].id == other);
            } else {
                assert(k != p);
                assert(after.sessions[k - 1].id == other);
            }
        }
    }
}

/// The store after each of `records` was created in turn, each one started
/// at once.
pub open spec fn created_in_turn(store: ManagerView, records: Seq<SessionView>) -> ManagerView
    decreases records.len(),
{
    if records.len() == 0 {
        store
    } else {
        created_in_turn(store, records.drop_last()).with_session(records.last(), true)
    }
}

/// Last write wins: after any run of creations that start at once, the
/// active identifier is that of the session created last.
pub proof fn lemma_last_created_is_active(store: ManagerView, records: Seq<SessionView>)
    requires
        records.len() > 0,
    ensures
        created_in_turn(store, records).active_session_id == Some(records.last().id),
        created_in_turn(store, records).active() is Some,
{
    let before = created_in_turn(store, records.drop_last());
    let after = before.with_session(records.last(), true);
    assert(after.sessions[before.sessions.len() as int].id == records.last().id);
}

/// Deleting the active session leaves no session active, whether or not the
/// store still held a record for the active identifier.
pub proof fn lemma_delete_active_leaves_none(store: ManagerView, id: u128)
    requires
        store.active_session_id == Some(id),
    ensures
        store.without(id).active() is None,
{
}

/// A request to start a session that the store does not hold changes
/// nothing.
pub proof fn lemma_start_unknown_changes_nothing(store: ManagerView, id: u128, now: Timestamp)
    requires
        !store.contains_id(id),
    ensures
        store.started(id, now) == store,
{
}

/// Right after a session is created, the store has a session for its
/// context.
pub proof fn lemma_created_context_exists(store: ManagerView, record: SessionView, start: bool)
    ensures
        store.with_session(record, start).has_context(
            record.folder_id,
            record.course_id,
            record.set_id,
        ),
{
    let after = store.with_session(record, start);
    assert(after.sessions[store.sessions.len() as int].in_context(
        record.folder_id,
        record.course_id,
        record.set_id,
    ));
}

/// A store with exactly one session has a session for a context exactly
/// when that context is the one session's own.
pub proof fn lemma_single_session_context(
    store: ManagerView,
    folder_id: u128,
    course_id: u128,
    set_id: u128,
)
    requires
        store.sessions.len() == 1,
    ensures
        store.has_context(folder_id, course_id, set_id) <==> store.sessions[0].in_context(
            folder_id,
            course_id,
            set_id,
        ),
{
}

} // verus!
