//! Backends that keep everything in memory. They are always available, so
//! each call ends exactly as the state dictates.

use vstd::prelude::*;
use crate::error::StorageError;
use crate::keyed::{
    as_map, distinct_keys, lemma_as_map_absent, lemma_as_map_domain, lemma_as_map_entry,
    lemma_as_map_push, lemma_as_map_remove, lemma_as_map_update, lemma_distinct_count,
    lemma_purge_done, lemma_purge_drop, purged_from,
};
use crate::model::{
    deadline, live_at, CredentialData, CredentialView, FlowEntryView, FlowValue, SchemaStep,
    SchemaStepView, Session, SessionView, User, UserView,
};
use crate::storage::{
    live_flows, live_sessions, CredentialKey, FlowStore, FlowStoreState,
    SessionStore, SessionStoreState, UserStore, UserStoreState,
};

verus! {

/// A record that is filed under a string key.
pub trait Keyed {
    /// The key the record is filed under.
    spec fn key_view(&self) -> Seq<char>;

    /// The key the record is filed under.
    fn key(&self) -> (key: &String)
        ensures
            key@ == self.key_view(),
    ;
}

impl Keyed for User {
    open spec fn key_view(&self) -> Seq<char> {
        self.id@
    }

    fn key(&self) -> (key: &String) {
        &self.id
    }
}

impl Keyed for Session {
    open spec fn key_view(&self) -> Seq<char> {
        self.id@
    }

    fn key(&self) -> (key: &String) {
        &self.id
    }
}

/// The first position in `records` of a record filed under `key`, if there
/// is one.
fn position_of<T: Keyed>(records: &Vec<T>, key: &str) -> (r: Option<usize>)
    ensures
        match r {
            Some(i) => i < records.len() && records[i as int].key_view() == key@,
            None => forall|i: int|
                0 <= i < records.len() ==> (#[trigger] records[i]).key_view() != key@,
        },
{
    let wanted: String = key.to_owned();
    let mut i: usize = 0;
    while i < records.len()
        invariant
            i <= records.len(),
            wanted@ == key@,
            forall|j: int| 0 <= j < i ==> (#[trigger] records[j]).key_view() != key@,
        decreases records.len() - i,
    {
        if *records[i].key() == wanted {
            return Some(i);
        }
        i += 1;
    }
    None
}

/// A credential as the in-memory user store keeps it.
pub struct StoredCredential {
    method: String,
    identifier: String,
    user_id: String,
    data: CredentialData,
}

impl StoredCredential {
    /// The key and the value this record stands for.
    pub closed spec fn pair(self) -> (CredentialKey, CredentialView) {
        ((self.method@, self.identifier@), CredentialView { user_id: self.user_id@, data: self.data@ })
    }
}

/// A user store in memory.
pub struct MemoryUserStore {
    users: Vec<User>,
    credentials: Vec<StoredCredential>,
    schema: Vec<SchemaStep>,
}

impl MemoryUserStore {
    /// The users as keyed entries.
    pub closed spec fn user_pairs(&self) -> Seq<(Seq<char>, UserView)> {
        self.users@.map_values(|u: User| (u.id@, u@))
    }

    /// The credentials as keyed entries.
    pub closed spec fn credential_pairs(&self) -> Seq<(CredentialKey, CredentialView)> {
        self.credentials@.map_values(|c: StoredCredential| c.pair())
    }

    /// An empty store.
    pub fn new() -> (store: Self)
        ensures
            store.inv(),
            store.reliable(),
            store.state().users == Map::<Seq<char>, UserView>::empty(),
            store.state().credentials == Map::<CredentialKey, CredentialView>::empty(),
            store.state().schema_log == Seq::<SchemaStepView>::empty(),
    {
        let store = MemoryUserStore {
            users: Vec::new(),
            credentials: Vec::new(),
            schema: Vec::new(),
        };
        assert(store.state().schema_log =~= Seq::<SchemaStepView>::empty());
        store
    }

    /// The steps logged so far, oldest first.
    pub fn schema_log(&self) -> (log: &Vec<SchemaStep>)
        ensures
            log@.map_values(|step: SchemaStep| step@) == self.state().schema_log,
    {
        &self.schema
    }

    /// How many users the store holds.
    pub fn user_count(&self) -> (n: usize)
        requires
            self.inv(),
        ensures
            n == self.state().users.dom().len(),
    {
        proof {
            lemma_distinct_count(self.user_pairs());
        }
        self.users.len()
    }

    fn user_index(&self, id: &str) -> (r: Option<usize>)
        ensures
            match r {
                Some(i) => i < self.users.len() && self.users[i as int].id@ == id@,
                None => forall|i: int| 0 <= i < self.users.len() ==> self.users[i].id@ != id@,
            },
    {
        let found = position_of(&self.users, id);
        assert(found is None ==> forall|i: int|
            0 <= i < self.users.len() ==> (#[trigger] self.users[i]).key_view() != id@);
        found
    }

    fn credential_index(&self, method: &str, identifier: &str) -> (r: Option<usize>)
        ensures
            match r {
                Some(i) => i < self.credentials.len() && self.credentials[i as int].pair().0 == (
                    method@,
                    identifier@,
                ),
                None => forall|i: int|
                    0 <= i < self.credentials.len() ==> self.credentials[i].pair().0 != (
                        method@,
                        identifier@,
                    ),
            },
    {
        let method_wanted: String = method.to_owned();
        let identifier_wanted: String = identifier.to_owned();
        let mut i: usize = 0;
        while i < self.credentials.len()
            invariant
                i <= self.credentials.len(),
                method_wanted@ == method@,
                identifier_wanted@ == identifier@,
                forall|j: int|
                    0 <= j < i ==> self.credentials[j].pair().0 != (method@, identifier@),
            decreases self.credentials.len() - i,
        {
            if self.credentials[i].method == method_wanted && self.credentials[i].identifier
                == identifier_wanted {
                return Some(i);
            }
            i += 1;
        }
        None
    }
}

impl UserStore for MemoryUserStore {
    closed spec fn inv(&self) -> bool {
        &&& distinct_keys(self.user_pairs())
        &&& distinct_keys(self.credential_pairs())
        &&& forall|i: int|
            0 <= i < self.credentials.len() ==> as_map(self.user_pairs()).contains_key(
                (#[trigger] self.credentials[i]).user_id@,
            )
    }

    closed spec fn state(&self) -> UserStoreState {
        UserStoreState {
            users: as_map(self.user_pairs()),
            credentials: as_map(self.credential_pairs()),
            schema_log: self.schema@.map_values(|step: SchemaStep| step@),
        }
    }

    open spec fn reliable(&self) -> bool {
        true
    }

    proof fn lemma_consistent(&self) {
        let users = self.user_pairs();
        let credentials = self.credential_pairs();
        assert forall|id: Seq<char>| #[trigger]
            self.state().users.contains_key(id) implies self.state().users[id].id == id by {
            lemma_as_map_domain(users, id);
            let i = choose|i: int| 0 <= i < users.len() && (#[trigger] users[i]).0 == id;
            lemma_as_map_entry(users, i);
        }
        assert forall|k: CredentialKey| #[trigger]
            self.state().credentials.contains_key(k) implies self.state().users.contains_key(
            self.state().credentials[k].user_id,
        ) by {
            lemma_as_map_domain(credentials, k);
            let i = choose|i: int| 0 <= i < credentials.len() && (#[trigger] credentials[i]).0 == k;
            lemma_as_map_entry(credentials, i);
            assert(credentials[i].1.user_id == self.credentials[i].user_id@);
        }
    }

    fn prepare(&mut self, method: &str) -> (r: Result<(), StorageError>) {
        let ghost before = self.state().schema_log;
        self.schema.push(SchemaStep::Prepared(method.to_owned()));
        assert(self.state().schema_log =~= before.push(SchemaStepView::Prepared(method@)));
        Ok(())
    }

    fn migrate(&mut self, method: &str) -> (r: Result<(), StorageError>) {
        let ghost before = self.state().schema_log;
        self.schema.push(SchemaStep::Migrated(method.to_owned()));
        assert(self.state().schema_log =~= before.push(SchemaStepView::Migrated(method@)));
        Ok(())
    }

    fn create_user(&mut self, user: User) -> (r: Result<(), StorageError>) {
        let ghost before = self.user_pairs();
        match self.user_index(user.id.as_str()) {
            Some(i) => {
                proof {
                    lemma_as_map_entry(before, i as int);
                }
                Err(StorageError::Constraint)
            },
            None => {
                proof {
                    assert forall|j: int| 0 <= j < before.len() implies (#[trigger] before[j]).0
                        != user.id@ by {
                        assert(self.users[j].id@ != user.id@);
                    }
                    lemma_as_map_absent(before, user.id@);
                    lemma_as_map_push(before, user.id@, user@);
                }
                self.users.push(user);
                assert(self.user_pairs() =~= before.push((user.id@, user@)));
                Ok(())
            },
        }
    }

    fn find_by_id(&self, id: &str) -> (r: Result<Option<User>, StorageError>) {
        let ghost pairs = self.user_pairs();
        match self.user_index(id) {
            Some(i) => {
                proof {
                    lemma_as_map_entry(pairs, i as int);
                }
                Ok(Some(self.users[i].clone()))
            },
            None => {
                proof {
                    assert forall|j: int| 0 <= j < pairs.len() implies (#[trigger] pairs[j]).0
                        != id@ by {
                        assert(self.users[j].id@ != id@);
                    }
                    lemma_as_map_absent(pairs, id@);
                }
                Ok(None)
            },
        }
    }

    fn find_by_credential(&self, method: &str, identifier: &str) -> (r: Result<
        Option<(User, CredentialData)>,
        StorageError,
    >) {
        let ghost pairs = self.credential_pairs();
        let ghost users = self.user_pairs();
        match self.credential_index(method, identifier) {
            Some(i) => {
                proof {
                    lemma_as_map_entry(pairs, i as int);
                }
                let owner = self.user_index(self.credentials[i].user_id.as_str());
                match owner {
                    Some(u) => {
                        proof {
                            lemma_as_map_entry(users, u as int);
                        }
                        Ok(Some((self.users[u].clone(), self.credentials[i].data.clone())))
                    },
                    None => {
                        proof {
                            let id = self.credentials[i as int].user_id@;
                            assert forall|j: int| 0 <= j < users.len() implies (
                            #[trigger] users[j]).0 != id by {
                                assert(self.users[j].id@ != id);
                            }
                            lemma_as_map_absent(users, id);
                            assert(false);
                        }
                        Err(StorageError::Constraint)
                    },
                }
            },
            None => {
                proof {
                    assert forall|j: int| 0 <= j < pairs.len() implies (#[trigger] pairs[j]).0 != (
                        method@,
                        identifier@,
                    ) by {
                        assert(self.credentials[j].pair().0 != (method@, identifier@));
                    }
                    lemma_as_map_absent(pairs, (method@, identifier@));
                }
                Ok(None)
            },
        }
    }

    fn link_credential(
        &mut self,
        user_id: &str,
        method: &str,
        identifier: &str,
        data: CredentialData,
    ) -> (r: Result<(), StorageError>) {
        let ghost pairs = self.credential_pairs();
        let ghost users = self.user_pairs();
        let ghost key = (method@, identifier@);
        match self.user_index(user_id) {
            None => {
                proof {
                    assert forall|j: int| 0 <= j < users.len() implies (#[trigger] users[j]).0
                        != user_id@ by {
                        assert(self.users[j].id@ != user_id@);
                    }
                    lemma_as_map_absent(users, user_id@);
                }
                Err(StorageError::Constraint)
            },
            Some(u) => {
                proof {
                    lemma_as_map_entry(users, u as int);
                }
                match self.credential_index(method, identifier) {
                    Some(i) => {
                        proof {
                            lemma_as_map_entry(pairs, i as int);
                        }
                        Err(StorageError::Constraint)
                    },
                    None => {
                        let record = StoredCredential {
                            method: method.to_owned(),
                            identifier: identifier.to_owned(),
                            user_id: user_id.to_owned(),
                            data,
                        };
                        proof {
                            assert forall|j: int| 0 <= j < pairs.len() implies (
                            #[trigger] pairs[j]).0 != key by {
                                assert(self.credentials[j].pair().0 != key);
                            }
                            lemma_as_map_absent(pairs, key);
                            lemma_as_map_push(pairs, key, record.pair().1);
                        }
                        self.credentials.push(record);
                        assert(self.credential_pairs() =~= pairs.push((key, record.pair().1)));
                        Ok(())
                    },
                }
            },
        }
    }

    fn advance_sign_count(&mut self, method: &str, identifier: &str, count: u32) -> (r: Result<
        bool,
        StorageError,
    >) {
        let ghost pairs = self.credential_pairs();
        let ghost key = (method@, identifier@);
        match self.credential_index(method, identifier) {
            None => {
                proof {
                    assert forall|j: int| 0 <= j < pairs.len() implies (#[trigger] pairs[j]).0
                        != key by {
                        assert(self.credentials[j].pair().0 != key);
                    }
                    lemma_as_map_absent(pairs, key);
                }
                Err(StorageError::Constraint)
            },
            Some(i) => {
                proof {
                    lemma_as_map_entry(pairs, i as int);
                }
                let advanced = match &self.credentials[i].data {
                    CredentialData::Passkey { public_key, sign_count } => {
                        if count > *sign_count || (*sign_count == 0 && count == 0) {
                            Some(public_key.clone())
                        } else {
                            return Ok(false);
                        }
                    },
                    _ => {
                        return Err(StorageError::Constraint);
                    },
                };
                match advanced {
                    Some(public_key) => {
                        let record = StoredCredential {
                            method: method.to_owned(),
                            identifier: identifier.to_owned(),
                            user_id: self.credentials[i].user_id.clone(),
                            data: CredentialData::Passkey { public_key, sign_count: count },
                        };
                        proof {
                            lemma_as_map_update(pairs, i as int, record.pair().1);
                        }
                        self.credentials.set(i, record);
                        assert(self.credential_pairs() =~= pairs.update(
                            i as int,
                            (key, record.pair().1),
                        ));
                        Ok(true)
                    },
                    None => Ok(false),
                }
            },
        }
    }
}

/// A session store in memory.
pub struct MemorySessionStore {
    sessions: Vec<Session>,
}

impl MemorySessionStore {
    /// The sessions as keyed entries.
    pub closed spec fn pairs(&self) -> Seq<(Seq<char>, SessionView)> {
        self.sessions@.map_values(|s: Session| (s.id@, s@))
    }

    /// An empty store.
    pub fn new() -> (store: Self)
        ensures
            store.inv(),
            store.reliable(),
            store.state() == Map::<Seq<char>, SessionView>::empty(),
    {
        MemorySessionStore { sessions: Vec::new() }
    }

    /// How many sessions the store holds, expired ones included.
    pub fn session_count(&self) -> (n: usize)
        requires
            self.inv(),
        ensures
            n == self.state().dom().len(),
    {
        proof {
            lemma_distinct_count(self.pairs());
        }
        self.sessions.len()
    }

    fn index_of(&self, id: &str) -> (r: Option<usize>)
        ensures
            match r {
                Some(i) => i < self.sessions.len() && self.sessions[i as int].id@ == id@,
                None => !as_map(self.pairs()).contains_key(id@),
            },
    {
        let found = position_of(&self.sessions, id);
        proof {
            if found is None {
                assert forall|j: int| 0 <= j < self.pairs().len() implies (
                #[trigger] self.pairs()[j]).0 != id@ by {
                    assert(self.sessions[j].key_view() != id@);
                }
                lemma_as_map_absent(self.pairs(), id@);
            }
        }
        found
    }
}

impl SessionStore for MemorySessionStore {
    closed spec fn inv(&self) -> bool {
        distinct_keys(self.pairs())
    }

    closed spec fn state(&self) -> SessionStoreState {
        as_map(self.pairs())
    }

    open spec fn reliable(&self) -> bool {
        true
    }

    proof fn lemma_consistent(&self) {
        let pairs = self.pairs();
        assert forall|id: Seq<char>| #[trigger]
            self.state().contains_key(id) implies self.state()[id].id == id by {
            lemma_as_map_domain(pairs, id);
            let i = choose|i: int| 0 <= i < pairs.len() && (#[trigger] pairs[i]).0 == id;
            lemma_as_map_entry(pairs, i);
        }
    }

    fn create_session(&mut self, session: Session) -> (r: Result<(), StorageError>) {
        let ghost before = self.pairs();
        match self.index_of(session.id.as_str()) {
            Some(i) => {
                proof {
                    lemma_as_map_entry(before, i as int);
                }
                Err(StorageError::Constraint)
            },
            None => {
                proof {
                    lemma_as_map_push(before, session.id@, session@);
                }
                self.sessions.push(session);
                assert(self.pairs() =~= before.push((session.id@, session@)));
                Ok(())
            },
        }
    }

    fn find_session(&self, id: &str) -> (r: Result<Option<Session>, StorageError>) {
        match self.index_of(id) {
            Some(i) => {
                proof {
                    lemma_as_map_entry(self.pairs(), i as int);
                }
                Ok(Some(self.sessions[i].clone()))
            },
            None => Ok(None),
        }
    }

    fn delete_session(&mut self, id: &str) -> (r: Result<(), StorageError>) {
        let ghost before = self.pairs();
        match self.index_of(id) {
            Some(i) => {
                proof {
                    lemma_as_map_remove(before, i as int);
                }
                self.sessions.remove(i);
                assert(self.pairs() =~= before.remove(i as int));
            },
            None => {
                assert(as_map(before).remove(id@) =~= as_map(before));
            },
        }
        Ok(())
    }

    fn delete_expired(&mut self, now: u64) -> (r: Result<(), StorageError>) {
        let ghost orig = as_map(self.pairs());
        let ghost keep = |entry: SessionView| live_at(entry.expires_at, now);
        let mut i: usize = self.sessions.len();
        while i > 0
            invariant
                i <= self.sessions.len(),
                purged_from(self.pairs(), orig, keep, i as int),
                keep == |entry: SessionView| live_at(entry.expires_at, now),
            decreases i,
        {
            i -= 1;
            if self.sessions[i].expires_at <= now {
                let ghost before = self.pairs();
                proof {
                    lemma_purge_drop(before, orig, keep, i as int);
                }
                self.sessions.remove(i);
                assert(self.pairs() =~= before.remove(i as int));
            }
        }
        proof {
            lemma_purge_done(self.pairs(), orig, keep);
            assert(live_sessions(orig, now) =~= orig.restrict(
                Set::new(|k: Seq<char>| orig.contains_key(k) && keep(orig[k])),
            ));
        }
        Ok(())
    }
}

/// A flow state as the in-memory flow store keeps it.
pub struct StoredFlow {
    key: String,
    value: FlowValue,
    created_at: u64,
    expires_at: u64,
}

impl StoredFlow {
    /// The key and the value this record stands for.
    pub closed spec fn pair(self) -> (Seq<char>, FlowEntryView) {
        (
            self.key@,
            FlowEntryView {
                value: self.value@,
                created_at: self.created_at,
                expires_at: self.expires_at,
            },
        )
    }
}

impl Keyed for StoredFlow {
    closed spec fn key_view(&self) -> Seq<char> {
        self.key@
    }

    fn key(&self) -> (key: &String) {
        &self.key
    }
}

/// A flow store in memory.
pub struct MemoryFlowStore {
    entries: Vec<StoredFlow>,
}

impl MemoryFlowStore {
    /// The flow states as keyed entries.
    pub closed spec fn pairs(&self) -> Seq<(Seq<char>, FlowEntryView)> {
        self.entries@.map_values(|e: StoredFlow| e.pair())
    }

    /// An empty store.
    pub fn new() -> (store: Self)
        ensures
            store.inv(),
            store.reliable(),
            store.state() == Map::<Seq<char>, FlowEntryView>::empty(),
    {
        MemoryFlowStore { entries: Vec::new() }
    }

    /// How many flow states the store holds, lapsed ones included.
    pub fn flow_count(&self) -> (n: usize)
        requires
            self.inv(),
        ensures
            n == self.state().dom().len(),
    {
        proof {
            lemma_distinct_count(self.pairs());
        }
        self.entries.len()
    }

    fn index_of(&self, key: &str) -> (r: Option<usize>)
        ensures
            match r {
                Some(i) => i < self.entries.len() && self.entries[i as int].key@ == key@,
                None => !as_map(self.pairs()).contains_key(key@),
            },
    {
        let found = position_of(&self.entries, key);
        proof {
            if found is None {
                assert forall|j: int| 0 <= j < self.pairs().len() implies (
                #[trigger] self.pairs()[j]).0 != key@ by {
                    assert(self.entries[j].key_view() != key@);
                }
                lemma_as_map_absent(self.pairs(), key@);
            }
        }
        found
    }
}

impl FlowStore for MemoryFlowStore {
    closed spec fn inv(&self) -> bool {
        distinct_keys(self.pairs())
    }

    closed spec fn state(&self) -> FlowStoreState {
        as_map(self.pairs())
    }

    open spec fn reliable(&self) -> bool {
        true
    }

    fn put(&mut self, key: &str, value: FlowValue, now: u64, ttl: u64) -> (r: Result<
        (),
        StorageError,
    >) {
        let ghost before = self.pairs();
        let record = StoredFlow {
            key: key.to_owned(),
            value,
            created_at: now,
            expires_at: deadline(now, ttl),
        };
        match self.index_of(key) {
            Some(i) => {
                proof {
                    lemma_as_map_update(before, i as int, record.pair().1);
                }
                self.entries.set(i, record);
                assert(self.pairs() =~= before.update(i as int, (key@, record.pair().1)));
            },
            None => {
                proof {
                    lemma_as_map_push(before, key@, record.pair().1);
                }
                self.entries.push(record);
                assert(self.pairs() =~= before.push((key@, record.pair().1)));
            },
        }
        Ok(())
    }

    fn take(&mut self, key: &str, now: u64) -> (r: Result<Option<FlowValue>, StorageError>) {
        let ghost before = self.pairs();
        match self.index_of(key) {
            Some(i) => {
                proof {
                    lemma_as_map_remove(before, i as int);
                    lemma_as_map_entry(before, i as int);
                }
                let record = self.entries.remove(i);
                assert(self.pairs() =~= before.remove(i as int));
                if now < record.expires_at {
                    Ok(Some(record.value))
                } else {
                    Ok(None)
                }
            },
            None => {
                assert(as_map(before).remove(key@) =~= as_map(before));
                Ok(None)
            },
        }
    }

    fn purge_expired(&mut self, now: u64) -> (r: Result<(), StorageError>) {
        let ghost orig = as_map(self.pairs());
        let ghost keep = |entry: FlowEntryView| live_at(entry.expires_at, now);
        let mut i: usize = self.entries.len();
        while i > 0
            invariant
                i <= self.entries.len(),
                purged_from(self.pairs(), orig, keep, i as int),
                keep == |entry: FlowEntryView| live_at(entry.expires_at, now),
            decreases i,
        {
            i -= 1;
            if self.entries[i].expires_at <= now {
                let ghost before = self.pairs();
                proof {
                    lemma_purge_drop(before, orig, keep, i as int);
                }
                self.entries.remove(i);
                assert(self.pairs() =~= before.remove(i as int));
            }
        }
        proof {
            lemma_purge_done(self.pairs(), orig, keep);
            assert(live_flows(orig, now) =~= orig.restrict(
                Set::new(|k: Seq<char>| orig.contains_key(k) && keep(orig[k])),
            ));
        }
        Ok(())
    }
}

} // verus!
