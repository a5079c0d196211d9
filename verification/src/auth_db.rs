//! Authentication database: the entry type, the error type, the interface
//! every backend implements, and an in-memory backend.

use vstd::prelude::*;
use crate::strings::{seq_lt, str_eq, str_lt, law_seq_lt_order};

verus! {

/// An authentication entry.
#[derive(Debug, PartialEq)]
pub struct AuthEntry {
    /// User id (auto-incremented).
    pub id: u64,
    /// User name.
    pub name: String,
    /// Password hash.
    pub password: String,
    /// Privileges.
    pub privileges: Vec<String>,
    /// Last login time (Unix seconds).
    pub last_login: i64,
}

/// Plain-value view of an [`AuthEntry`].
pub struct AuthEntryView {
    pub id: u64,
    pub name: Seq<char>,
    pub password: Seq<char>,
    pub privileges: Seq<Seq<char>>,
    pub last_login: i64,
}

impl View for AuthEntry {
    type V = AuthEntryView;

    open spec fn view(&self) -> AuthEntryView {
        AuthEntryView {
            id: self.id,
            name: self.name@,
            password: self.password@,
            privileges: self.privileges@.map_values(|p: String| p@),
            last_login: self.last_login,
        }
    }
}

/// Copies of each string of `v`.
pub fn clone_strings(v: &Vec<String>) -> (r: Vec<String>)
    ensures
        r@.map_values(|p: String| p@) == v@.map_values(|p: String| p@),
{
    let mut r: Vec<String> = Vec::new();
    let mut i: usize = 0;
    while i < v.len()
        invariant
            i <= v@.len(),
            r@.len() == i,
            forall|j: int| 0 <= j < i ==> (#[trigger] r@[j])@ == v@[j]@,
        decreases v.len() - i,
    {
        r.push(v[i].clone());
        i = i + 1;
    }
    assert(r@.map_values(|p: String| p@) =~= v@.map_values(|p: String| p@));
    r
}

impl AuthEntry {
    /// A copy of this entry.
    pub fn duplicate(&self) -> (r: AuthEntry)
        ensures
            r@ == self@,
    {
        AuthEntry {
            id: self.id,
            name: self.name.clone(),
            password: self.password.clone(),
            privileges: clone_strings(&self.privileges),
            last_login: self.last_login,
        }
    }
}

impl Clone for AuthEntry {
    fn clone(&self) -> (r: Self)
        ensures
            r@ == self@,
    {
        self.duplicate()
    }
}

/// Authentication database errors; each carries a message.
#[derive(Debug)]
pub enum AuthDbError {
    UserNotFound(String),
    UserAlreadyExists(String),
    DatabaseError(String),
    ConnectionError(String),
    SqliteError(String),
    PostgresError(String),
    IoError(String),
}

/// Result of an authentication database operation.
pub type AuthDbResult<T> = Result<T, AuthDbError>;

/// The interface of an authentication database backend. A backend is
/// seen as the map `stored()` from user names to entries; what a call does
/// to that map, and what its answer says of it, is the contract every
/// backend keeps. No call promises to succeed: a backend may fail for its
/// own reasons, and then leaves the map as it was.
pub trait AuthDatabase {
    /// The entries held, by user name. A verified backend defines it; a
    /// backend written outside the verified library keeps this default, and
    /// its methods are then not held to the contracts below by any proof.
    open spec fn stored(&self) -> Map<Seq<char>, AuthEntryView> {
        Map::empty()
    }

    /// The entry of user `name`.
    fn get_auth(&mut self, name: &str) -> (r: AuthDbResult<AuthEntry>)
        ensures
            final(self).stored() == old(self).stored(),
            r matches Ok(e) ==> old(self).stored().contains_key(name@) && e@ == old(self).stored()[name@],
            r matches Err(AuthDbError::UserNotFound(_)) ==> !old(self).stored().contains_key(name@);

    /// Saves (updates) an existing entry.
    fn save_auth(&mut self, auth_entry: &AuthEntry) -> (r: AuthDbResult<()>)
        ensures
            r is Err ==> final(self).stored() == old(self).stored(),
            r is Ok && old(self).stored().contains_key(auth_entry.name@)
                && old(self).stored()[auth_entry.name@].id == auth_entry.id
                ==> final(self).stored() == old(self).stored().insert(auth_entry.name@, auth_entry@);

    /// Creates a new entry; its `id` is set to the generated id.
    fn create_auth(&mut self, auth_entry: &mut AuthEntry) -> (r: AuthDbResult<()>)
        ensures
            old(self).stored().contains_key(old(auth_entry).name@) ==> r is Err,
            r is Ok ==> final(auth_entry)@ == (AuthEntryView { id: final(auth_entry).id, ..old(auth_entry)@ })
                && final(self).stored() == old(self).stored().insert(old(auth_entry).name@, final(auth_entry)@),
            r is Err ==> final(self).stored() == old(self).stored(),
            r matches Err(AuthDbError::UserAlreadyExists(_)) ==> old(self).stored().contains_key(old(auth_entry).name@);

    /// Deletes the entry of `name`; whether one was there.
    fn delete_auth(&mut self, name: &str) -> (r: AuthDbResult<bool>)
        ensures
            r is Err ==> final(self).stored() == old(self).stored(),
            r matches Ok(b) ==> b == old(self).stored().contains_key(name@)
                && final(self).stored() == old(self).stored().remove(name@);

    /// All user names.
    fn list_names(&mut self) -> (r: AuthDbResult<Vec<String>>)
        ensures
            final(self).stored() == old(self).stored(),
            r matches Ok(names) ==> names@.map_values(|s: String| s@).to_set() == old(self).stored().dom();

    /// Reloads the database (for file-based backends).
    fn reload(&self) -> AuthDbResult<()>;
}

/// Whether the names of `s` are strictly increasing.
pub open spec fn names_sorted(s: Seq<AuthEntryView>) -> bool {
    forall|i: int, j: int| 0 <= i < j < s.len() ==> seq_lt(#[trigger] s[i].name, #[trigger] s[j].name)
}

/// Whether some entry of `s` is named `n`.
pub open spec fn has_name(s: Seq<AuthEntryView>, n: Seq<char>) -> bool {
    exists|i: int| 0 <= i < s.len() && (#[trigger] s[i]).name == n
}

/// The entries of `s` by name.
pub open spec fn entry_map(s: Seq<AuthEntryView>) -> Map<Seq<char>, AuthEntryView> {
    Map::new(
        |n: Seq<char>| has_name(s, n),
        |n: Seq<char>| s[choose|i: int| 0 <= i < s.len() && (#[trigger] s[i]).name == n],
    )
}

/// Names of the entries of `s`, in order.
pub open spec fn names_of(s: Seq<AuthEntryView>) -> Seq<Seq<char>> {
    s.map_values(|e: AuthEntryView| e.name)
}

proof fn lemma_unique_index(s: Seq<AuthEntryView>, i: int, j: int)
    requires
        names_sorted(s),
        0 <= i < s.len(),
        0 <= j < s.len(),
        s[i].name == s[j].name,
    ensures
        i == j,
{
    if i < j {
        law_seq_lt_order(s[i].name, s[j].name, s[j].name);
    } else if j < i {
        law_seq_lt_order(s[j].name, s[i].name, s[i].name);
    }
}

proof fn lemma_entry_at(s: Seq<AuthEntryView>, k: int)
    requires
        names_sorted(s),
        0 <= k < s.len(),
    ensures
        entry_map(s).contains_key(s[k].name),
        entry_map(s)[s[k].name] == s[k],
{
    let n = s[k].name;
    assert(has_name(s, n));
    let j = choose|i: int| 0 <= i < s.len() && (#[trigger] s[i]).name == n;
    lemma_unique_index(s, j, k);
}

proof fn lemma_map_after_insert(s: Seq<AuthEntryView>, i: int, e: AuthEntryView)
    requires
        names_sorted(s),
        names_sorted(s.insert(i, e)),
        0 <= i <= s.len(),
        !has_name(s, e.name),
    ensures
        entry_map(s.insert(i, e)) == entry_map(s).insert(e.name, e),
{
    let t = s.insert(i, e);
    assert forall|n: Seq<char>| has_name(t, n) <==> (has_name(s, n) || n == e.name) by {
        if has_name(t, n) {
            let k = choose|k: int| 0 <= k < t.len() && (#[trigger] t[k]).name == n;
            if k < i {
                assert(s[k] == t[k]);
            } else if k > i {
                assert(s[k - 1] == t[k]);
            }
        }
        if has_name(s, n) {
            let k = choose|k: int| 0 <= k < s.len() && (#[trigger] s[k]).name == n;
            if k < i {
                assert(t[k] == s[k]);
            } else {
                assert(t[k + 1] == s[k]);
            }
        }
        if n == e.name {
            assert(t[i] == e);
        }
    }
    assert forall|n: Seq<char>| #[trigger] entry_map(t).contains_key(n) implies entry_map(t)[n] == entry_map(s).insert(e.name, e)[n] by {
        let k = choose|k: int| 0 <= k < t.len() && (#[trigger] t[k]).name == n;
        lemma_entry_at(t, k);
        if k < i {
            assert(s[k] == t[k]);
            lemma_entry_at(s, k);
        } else if k > i {
            assert(s[k - 1] == t[k]);
            lemma_entry_at(s, k - 1);
        }
    }
    assert(entry_map(t) =~= entry_map(s).insert(e.name, e));
}

proof fn lemma_map_after_update(s: Seq<AuthEntryView>, i: int, e: AuthEntryView)
    requires
        names_sorted(s),
        0 <= i < s.len(),
        s[i].name == e.name,
    ensures
        names_sorted(s.update(i, e)),
        entry_map(s.update(i, e)) == entry_map(s).insert(e.name, e),
{
    let t = s.update(i, e);
    assert(names_sorted(t)) by {
        assert forall|a: int, b: int| 0 <= a < b < t.len() implies seq_lt(#[trigger] t[a].name, #[trigger] t[b].name) by {
            assert(t[a].name == s[a].name);
            assert(t[b].name == s[b].name);
        }
    }
    assert forall|n: Seq<char>| has_name(t, n) <==> has_name(s, n) by {
        if has_name(t, n) {
            let k = choose|k: int| 0 <= k < t.len() && (#[trigger] t[k]).name == n;
            assert(s[k].name == t[k].name);
        }
        if has_name(s, n) {
            let k = choose|k: int| 0 <= k < s.len() && (#[trigger] s[k]).name == n;
            assert(s[k].name == t[k].name);
        }
    }
    assert(has_name(s, e.name)) by {
        assert(s[i].name == e.name);
    }
    assert forall|n: Seq<char>| #[trigger] entry_map(t).contains_key(n) implies entry_map(t)[n] == entry_map(s).insert(e.name, e)[n] by {
        let k = choose|k: int| 0 <= k < t.len() && (#[trigger] t[k]).name == n;
        lemma_entry_at(t, k);
        if k != i {
            lemma_entry_at(s, k);
            if n == e.name {
                lemma_unique_index(s, k, i);
            }
        }
    }
    assert(entry_map(t) =~= entry_map(s).insert(e.name, e));
}

proof fn lemma_map_after_remove(s: Seq<AuthEntryView>, i: int)
    requires
        names_sorted(s),
        0 <= i < s.len(),
    ensures
        names_sorted(s.remove(i)),
        entry_map(s.remove(i)) == entry_map(s).remove(s[i].name),
{
    let t = s.remove(i);
    let name = s[i].name;
    assert(names_sorted(t)) by {
        assert forall|a: int, b: int| 0 <= a < b < t.len() implies seq_lt(#[trigger] t[a].name, #[trigger] t[b].name) by {
            let a2 = if a < i { a } else { a + 1 };
            let b2 = if b < i { b } else { b + 1 };
            assert(t[a] == s[a2]);
            assert(t[b] == s[b2]);
        }
    }
    assert forall|n: Seq<char>| has_name(t, n) <==> (has_name(s, n) && n != name) by {
        if has_name(t, n) {
            let k = choose|k: int| 0 <= k < t.len() && (#[trigger] t[k]).name == n;
            let k2 = if k < i { k } else { k + 1 };
            assert(t[k] == s[k2]);
            if n == name {
                lemma_unique_index(s, i, k2);
            }
        }
        if has_name(s, n) && n != name {
            let k = choose|k: int| 0 <= k < s.len() && (#[trigger] s[k]).name == n;
            if k < i {
                assert(t[k] == s[k]);
            } else {
                assert(t[k - 1] == s[k]);
            }
        }
    }
    assert forall|n: Seq<char>| #[trigger] entry_map(t).contains_key(n) implies entry_map(t)[n] == entry_map(s)[n] by {
        let k = choose|k: int| 0 <= k < t.len() && (#[trigger] t[k]).name == n;
        lemma_entry_at(t, k);
        let k2 = if k < i { k } else { k + 1 };
        assert(t[k] == s[k2]);
        lemma_entry_at(s, k2);
    }
    assert(entry_map(t) =~= entry_map(s).remove(name));
}

/// In-memory authentication database. Entries are kept sorted by name,
/// so names are unique and listed in order.
pub struct AuthDatabaseMemory {
    entries: Vec<AuthEntry>,
    next_id: u64,
}

impl AuthDatabaseMemory {
    /// The stored entries, in name order.
    pub closed spec fn entry_seq(&self) -> Seq<AuthEntryView> {
        self.entries@.map_values(|e: AuthEntry| e@)
    }

    /// The stored entries by name.
    pub open spec fn entries(&self) -> Map<Seq<char>, AuthEntryView> {
        entry_map(self.entry_seq())
    }

    /// Id the next created entry gets.
    pub closed spec fn next_id(&self) -> u64 {
        self.next_id
    }

    /// Entries are sorted by name, and ids are handed out from 1 on.
    #[verifier::type_invariant]
    closed spec fn wf(&self) -> bool {
        &&& names_sorted(self.entries@.map_values(|e: AuthEntry| e@))
        &&& self.next_id >= 1
    }

    /// Create a new, empty in-memory auth database.
    pub fn new() -> (db: Self)
        ensures
            db.entry_seq() == Seq::<AuthEntryView>::empty(),
            db.entries() == Map::<Seq<char>, AuthEntryView>::empty(),
            db.next_id() == 1,
    {
        let db = AuthDatabaseMemory { entries: Vec::new(), next_id: 1 };
        assert(db.entry_seq() =~= Seq::<AuthEntryView>::empty());
        assert(db.entries() =~= Map::<Seq<char>, AuthEntryView>::empty());
        db
    }

    /// Number of users currently stored.
    pub fn len(&self) -> (n: usize)
        ensures
            n == self.entry_seq().len(),
            n == self.entries().len(),
    {
        proof {
            use_type_invariant(self);
            lemma_map_len(self.entry_seq());
        }
        self.entries.len()
    }

    /// Whether the database is empty.
    pub fn is_empty(&self) -> (b: bool)
        ensures
            b == (self.entries().len() == 0),
    {
        self.len() == 0
    }

    /// Index of the first entry whose name is not below `name`, and
    /// whether that entry is named `name`.
    fn position(&self, name: &str) -> (r: (usize, bool))
        ensures
            r.0 <= self.entry_seq().len(),
            forall|i: int| 0 <= i < r.0 ==> seq_lt(#[trigger] self.entry_seq()[i].name, name@),
            forall|i: int| r.0 <= i < self.entry_seq().len() ==> !seq_lt(#[trigger] self.entry_seq()[i].name, name@),
            r.1 == (r.0 < self.entry_seq().len() && self.entry_seq()[r.0 as int].name == name@),
            r.1 == has_name(self.entry_seq(), name@),
    {
        proof {
            use_type_invariant(self);
        }
        let ghost es = self.entry_seq();
        let mut i: usize = 0;
        while i < self.entries.len()
            invariant
                es == self.entry_seq(),
                names_sorted(es),
                i <= es.len(),
                es.len() == self.entries@.len(),
                forall|k: int| 0 <= k < i ==> seq_lt(#[trigger] es[k].name, name@),
            ensures
                i <= es.len(),
                forall|k: int| 0 <= k < i ==> seq_lt(#[trigger] es[k].name, name@),
                i < es.len() ==> !seq_lt(es[i as int].name, name@),
            decreases self.entries.len() - i,
        {
            if !str_lt(self.entries[i].name.as_str(), name) {
                break;
            }
            i = i + 1;
        }
        proof {
            assert forall|k: int| i <= k < es.len() implies !seq_lt(#[trigger] es[k].name, name@) by {
                if k > i {
                    law_seq_lt_order(es[i as int].name, es[k].name, name@);
                    law_seq_lt_order(es[k].name, name@, es[i as int].name);
                }
            }
        }
        let found = i < self.entries.len() && str_eq(self.entries[i].name.as_str(), name);
        proof {
            if !found {
                assert forall|k: int| 0 <= k < es.len() implies (#[trigger] es[k]).name != name@ by {
                    law_seq_lt_order(es[k].name, name@, name@);
                    if k > i {
                        law_seq_lt_order(es[i as int].name, es[k].name, name@);
                        law_seq_lt_order(name@, es[i as int].name, name@);
                    }
                }
            } else {
                assert(es[i as int].name == name@);
            }
        }
        (i, found)
    }
}

proof fn lemma_map_len(s: Seq<AuthEntryView>)
    requires
        names_sorted(s),
    ensures
        entry_map(s).dom().finite(),
        entry_map(s).len() == s.len(),
    decreases s.len(),
{
    if s.len() == 0 {
        assert(entry_map(s).dom() =~= Set::empty());
    } else {
        let t = s.drop_last();
        assert(names_sorted(t));
        lemma_map_len(t);
        assert(!has_name(t, s.last().name)) by {
            if has_name(t, s.last().name) {
                let k = choose|k: int| 0 <= k < t.len() && (#[trigger] t[k]).name == s.last().name;
                lemma_unique_index(s, k, s.len() - 1);
            }
        }
        assert(t.insert(t.len() as int, s.last()) =~= s);
        lemma_map_after_insert(t, t.len() as int, s.last());
    }
}

impl Default for AuthDatabaseMemory {
    fn default() -> (db: Self)
        ensures
            db.entries() == Map::<Seq<char>, AuthEntryView>::empty(),
            db.next_id() == 1,
    {
        Self::new()
    }
}

impl AuthDatabase for AuthDatabaseMemory {
    open spec fn stored(&self) -> Map<Seq<char>, AuthEntryView> {
        self.entries()
    }

    fn get_auth(&mut self, name: &str) -> (r: AuthDbResult<AuthEntry>)
        ensures
            final(self).entries() == old(self).entries(),
            final(self).entry_seq() == old(self).entry_seq(),
            final(self).next_id() == old(self).next_id(),
            match r {
                Ok(e) => old(self).entries().contains_key(name@) && e@ == old(self).entries()[name@],
                Err(AuthDbError::UserNotFound(n)) => !old(self).entries().contains_key(name@) && n@ == name@,
                Err(_) => false,
            },
    {
        let (i, found) = self.position(name);
        if found {
            proof {
                use_type_invariant(&*self);
                lemma_entry_at(self.entry_seq(), i as int);
            }
            Ok(self.entries[i].duplicate())
        } else {
            Err(AuthDbError::UserNotFound(name.to_owned()))
        }
    }

    fn save_auth(&mut self, auth_entry: &AuthEntry) -> (r: AuthDbResult<()>)
        ensures
            final(self).next_id() == old(self).next_id(),
            match r {
                Ok(()) => old(self).entries().contains_key(auth_entry.name@)
                    && final(self).entries() == old(self).entries().insert(auth_entry.name@, auth_entry@),
                Err(AuthDbError::UserNotFound(n)) => !old(self).entries().contains_key(auth_entry.name@)
                    && n@ == auth_entry.name@ && final(self).entry_seq() == old(self).entry_seq(),
                Err(_) => false,
            },
    {
        let (i, found) = self.position(auth_entry.name.as_str());
        if !found {
            return Err(AuthDbError::UserNotFound(auth_entry.name.clone()));
        }
        let mut tmp = AuthDatabaseMemory::new();
        std::mem::swap(self, &mut tmp);
        proof {
            use_type_invariant(&tmp);
        }
        let AuthDatabaseMemory { mut entries, next_id } = tmp;
        let ghost before = entries@.map_values(|e: AuthEntry| e@);
        entries.set(i, auth_entry.duplicate());
        proof {
            assert(entries@.map_values(|e: AuthEntry| e@) =~= before.update(i as int, auth_entry@));
            lemma_map_after_update(before, i as int, auth_entry@);
        }
        *self = AuthDatabaseMemory { entries, next_id };
        Ok(())
    }

    fn create_auth(&mut self, auth_entry: &mut AuthEntry) -> (r: AuthDbResult<()>)
        ensures
            match r {
                Ok(()) => {
                    &&& !old(self).entries().contains_key(old(auth_entry).name@)
                    &&& final(auth_entry)@ == (AuthEntryView { id: old(self).next_id(), ..old(auth_entry)@ })
                    &&& final(auth_entry).id >= 1
                    &&& final(self).entries() == old(self).entries().insert(old(auth_entry).name@, final(auth_entry)@)
                    &&& final(self).next_id() == old(self).next_id() + 1
                },
                Err(AuthDbError::UserAlreadyExists(n)) => {
                    &&& old(self).entries().contains_key(old(auth_entry).name@)
                    &&& n@ == old(auth_entry).name@
                    &&& final(auth_entry)@ == old(auth_entry)@
                    &&& final(self).entry_seq() == old(self).entry_seq()
                    &&& final(self).next_id() == old(self).next_id()
                },
                Err(AuthDbError::DatabaseError(_)) => {
                    &&& !old(self).entries().contains_key(old(auth_entry).name@)
                    &&& old(self).next_id() == u64::MAX
                    &&& final(auth_entry)@ == old(auth_entry)@
                    &&& final(self).entry_seq() == old(self).entry_seq()
                    &&& final(self).next_id() == old(self).next_id()
                },
                Err(_) => false,
            },
    {
        let (i, found) = self.position(auth_entry.name.as_str());
        if found {
            return Err(AuthDbError::UserAlreadyExists(auth_entry.name.clone()));
        }
        if self.next_id == u64::MAX {
            return Err(AuthDbError::DatabaseError("user id space exhausted".to_owned()));
        }
        let mut tmp = AuthDatabaseMemory::new();
        std::mem::swap(self, &mut tmp);
        proof {
            use_type_invariant(&tmp);
        }
        let AuthDatabaseMemory { mut entries, next_id } = tmp;
        let ghost before = entries@.map_values(|e: AuthEntry| e@);
        auth_entry.id = next_id;
        entries.insert(i, auth_entry.duplicate());
        proof {
            let after = entries@.map_values(|e: AuthEntry| e@);
            assert(after =~= before.insert(i as int, auth_entry@));
            assert(names_sorted(after)) by {
                assert forall|a: int, b: int| 0 <= a < b < after.len() implies seq_lt(#[trigger] after[a].name, #[trigger] after[b].name) by {
                    if b == i {
                        assert(after[a] == before[a]);
                    } else if a == i {
                        assert(after[b] == before[b - 1]);
                        if b - 1 > i {
                            law_seq_lt_order(auth_entry.name@, before[i as int].name, before[b - 1].name);
                        }
                        law_seq_lt_order(auth_entry.name@, before[b - 1].name, before[b - 1].name);
                    } else {
                        let a2 = if a < i { a } else { a - 1 };
                        let b2 = if b < i { b } else { b - 1 };
                        assert(after[a] == before[a2]);
                        assert(after[b] == before[b2]);
                    }
                }
            }
            lemma_map_after_insert(before, i as int, auth_entry@);
        }
        *self = AuthDatabaseMemory { entries, next_id: next_id + 1 };
        Ok(())
    }

    fn delete_auth(&mut self, name: &str) -> (r: AuthDbResult<bool>)
        ensures
            final(self).next_id() == old(self).next_id(),
            final(self).entries() == old(self).entries().remove(name@),
            r == Ok::<bool, AuthDbError>(old(self).entries().contains_key(name@)),
    {
        let (i, found) = self.position(name);
        if !found {
            proof {
                assert(self.entries() =~= self.entries().remove(name@));
            }
            return Ok(false);
        }
        let mut tmp = AuthDatabaseMemory::new();
        std::mem::swap(self, &mut tmp);
        proof {
            use_type_invariant(&tmp);
        }
        let AuthDatabaseMemory { mut entries, next_id } = tmp;
        let ghost before = entries@.map_values(|e: AuthEntry| e@);
        entries.remove(i);
        proof {
            assert(entries@.map_values(|e: AuthEntry| e@) =~= before.remove(i as int));
            lemma_map_after_remove(before, i as int);
        }
        *self = AuthDatabaseMemory { entries, next_id };
        Ok(true)
    }

    fn list_names(&mut self) -> (r: AuthDbResult<Vec<String>>)
        ensures
            final(self).entry_seq() == old(self).entry_seq(),
            final(self).next_id() == old(self).next_id(),
            match r {
                Ok(names) => {
                    &&& names@.map_values(|s: String| s@) == names_of(old(self).entry_seq())
                    &&& forall|i: int, j: int| 0 <= i < j < names@.len() ==> seq_lt(#[trigger] names@[i]@, #[trigger] names@[j]@)
                    &&& names@.map_values(|s: String| s@).to_set() == old(self).entries().dom()
                },
                Err(_) => false,
            },
    {
        proof {
            use_type_invariant(&*self);
        }
        let ghost es = self.entry_seq();
        let mut names: Vec<String> = Vec::new();
        let mut i: usize = 0;
        while i < self.entries.len()
            invariant
                es == self.entry_seq(),
                es.len() == self.entries@.len(),
                i <= es.len(),
                names@.len() == i,
                forall|k: int| 0 <= k < i ==> (#[trigger] names@[k])@ == es[k].name,
            decreases self.entries.len() - i,
        {
            names.push(self.entries[i].name.clone());
            i = i + 1;
        }
        proof {
            let nv = names@.map_values(|s: String| s@);
            assert(nv =~= names_of(es));
            assert forall|n: Seq<char>| nv.to_set().contains(n) <==> self.entries().dom().contains(n) by {
                if nv.to_set().contains(n) {
                    let k = choose|k: int| 0 <= k < nv.len() && nv[k] == n;
                    assert(es[k].name == n);
                }
                if has_name(es, n) {
                    let k = choose|k: int| 0 <= k < es.len() && (#[trigger] es[k]).name == n;
                    assert(nv[k] == n);
                }
            }
            assert(nv.to_set() =~= self.entries().dom());
        }
        Ok(names)
    }

    fn reload(&self) -> (r: AuthDbResult<()>)
        ensures
            r is Ok,
    {
        Ok(())
    }
}

/// Read after write: once `create_auth` or `save_auth` has stored entry
/// `e` (the store became `db1`), `get_auth(e.name)` finds exactly `e`,
/// and every other name reads as it did in `db0`.
pub proof fn law_memory_read_after_write(db0: AuthDatabaseMemory, db1: AuthDatabaseMemory, e: AuthEntryView, name: Seq<char>)
    requires
        db1.entries() == db0.entries().insert(e.name, e),
    ensures
        name == e.name ==> db1.entries().contains_key(name) && db1.entries()[name] == e,
        name != e.name ==> db1.entries().get(name) == db0.entries().get(name),
{
}

/// Read after delete: once `delete_auth(name)` has run (the store became
/// `db1`), `get_auth(name)` reports the user as missing, and every other
/// name reads as it did in `db0`.
pub proof fn law_memory_read_after_delete(db0: AuthDatabaseMemory, db1: AuthDatabaseMemory, name: Seq<char>, other: Seq<char>)
    requires
        db1.entries() == db0.entries().remove(name),
    ensures
        !db1.entries().contains_key(name),
        other != name ==> db1.entries().get(other) == db0.entries().get(other),
{
}

/// Ids handed out by successive creates strictly increase: a create
/// stores `e1` with the store's `next_id` and raises it by one (`d0` to
/// `d1`); the operations between (`d1` to `d2`) never lower it; the next
/// create stores `e2` with the `next_id` of `d2`.
pub proof fn law_memory_ids_increase(
    d0: AuthDatabaseMemory,
    d1: AuthDatabaseMemory,
    d2: AuthDatabaseMemory,
    e1: AuthEntryView,
    e2: AuthEntryView,
)
    requires
        e1.id == d0.next_id(),
        d1.next_id() == d0.next_id() + 1,
        d2.next_id() >= d1.next_id(),
        e2.id == d2.next_id(),
    ensures
        e2.id > e1.id,
{
}

} // verus!
