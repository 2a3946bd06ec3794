//! Transactional user store with the login-uniqueness invariant.
//!
//! The storage engine of the backend is a capability: atomic writes and a
//! unique index over the case-folded login. This module realizes that
//! capability as a verified in-memory table. Records live in insertion
//! order beside a folded-login index (the analogue of the database's
//! unique index on `lower(login)`); well-formedness says the identifiers
//! and the folded logins are distinct and the column widths hold.
//!
//! Every mutating operation is atomic by contract: it either performs
//! exactly the documented change or returns an error and leaves the store
//! untouched.

use vstd::prelude::*;
use vstd::string::*;

use crate::entity::Model;
use crate::entity::Role;

verus! {

/// The case folding used by the unique login index: what Unicode
/// lowercasing makes of a string. A function of the characters alone.
pub uninterp spec fn lower_of(s: Seq<char>) -> Seq<char>;

/// Relies on str::to_lowercase: the result depends on the characters
/// alone.
#[verifier::external_body]
fn lowercase(s: &str) -> (r: String)
    ensures
        r@ == lower_of(s@),
{
    s.to_lowercase()
}

/// Payload of an insert: the login and the already-hashed password.
pub struct NewUser {
    pub login: String,
    pub password: String,
}

/// Payload of an update: the target identifier and the fields to change.
pub struct UpdateUser {
    pub id: u128,
    pub login: Option<String>,
    pub password: Option<String>,
    pub role: Option<Role>,
}

/// Payload of a delete.
pub struct DeleteUser {
    pub id: u128,
}

/// How a store operation can fail. `Conflict` is the unique-index
/// violation on the folded login; `DuplicateId` the primary-key violation;
/// `Oversize` a column-width violation.
#[derive(Clone, Copy, Debug, PartialEq, Eq, Structural)]
pub enum StoreError {
    Conflict,
    DuplicateId,
    NotFound,
    Oversize,
}

/// Widest login the schema admits.
pub const MAX_LOGIN_LEN: usize = 128;

/// Widest password column the schema admits.
pub const MAX_PASSWORD_LEN: usize = 255;

/// No two records share an identifier.
pub open spec fn spec_ids_distinct(s: Seq<Model>) -> bool {
    forall|i: int, j: int| 0 <= i < j < s.len() ==> s[i].id != s[j].id
}

/// No two folded logins agree.
pub open spec fn spec_folded_distinct(f: Seq<Seq<char>>) -> bool {
    forall|i: int, j: int| 0 <= i < j < f.len() ==> f[i] != f[j]
}

/// Column widths hold of every record.
pub open spec fn spec_sizes_ok(s: Seq<Model>) -> bool {
    forall|i: int|
        0 <= i < s.len() ==> s[i].login@.len() <= MAX_LOGIN_LEN && s[i].password@.len()
            <= MAX_PASSWORD_LEN
}

/// Whether some record carries the identifier.
pub open spec fn spec_contains_id(s: Seq<Model>, id: u128) -> bool {
    exists|i: int| 0 <= i < s.len() && s[i].id == id
}

/// The position of the record carrying the identifier.
pub open spec fn spec_id_index(s: Seq<Model>, id: u128) -> int {
    choose|i: int| 0 <= i < s.len() && s[i].id == id
}

/// Whether some record carries exactly this login (case-sensitive, as the
/// lookup by login is).
pub open spec fn spec_contains_login(s: Seq<Model>, login: Seq<char>) -> bool {
    exists|i: int| 0 <= i < s.len() && s[i].login@ == login
}

/// Whether the folded index holds the key.
pub open spec fn spec_has_folded(f: Seq<Seq<char>>, key: Seq<char>) -> bool {
    exists|i: int| 0 <= i < f.len() && f[i] == key
}

/// Whether the folded index holds the key at a position other than `e`.
pub open spec fn spec_has_folded_except(f: Seq<Seq<char>>, key: Seq<char>, e: int) -> bool {
    exists|i: int| 0 <= i < f.len() && i != e && f[i] == key
}

/// The record as an update leaves it: supplied fields replaced,
/// `updated_at` refreshed, identifier and creation time untouched.
pub open spec fn spec_updated(m: Model, data: UpdateUser, now: u64) -> Model {
    Model {
        id: m.id,
        login: if data.login is Some {
            data.login.unwrap()
        } else {
            m.login
        },
        password: if data.password is Some {
            data.password.unwrap()
        } else {
            m.password
        },
        role: if data.role is Some {
            data.role.unwrap()
        } else {
            m.role
        },
        created_at: m.created_at,
        updated_at: now,
    }
}

/// The page `[offset, offset + limit)` of the records, clipped to the
/// table; an absent offset means the start, an absent limit no bound.
pub open spec fn spec_page(s: Seq<Model>, offset: Option<u64>, limit: Option<u64>) -> Seq<
    Model,
> {
    let o: int = if offset is Some {
        offset.unwrap() as int
    } else {
        0
    };
    let start: int = if o <= s.len() {
        o
    } else {
        s.len() as int
    };
    let l: int = if limit is Some {
        limit.unwrap() as int
    } else {
        s.len() as int
    };
    let end: int = if start + l <= s.len() {
        start + l
    } else {
        s.len() as int
    };
    s.subrange(start, end)
}

/// The user table: records in insertion order beside the folded-login
/// unique index.
pub struct UserStore {
    users: Vec<Model>,
    folded: Vec<String>,
}

impl UserStore {
    /// The stored records, in insertion order.
    pub closed spec fn records(&self) -> Seq<Model> {
        self.users@
    }

    /// The folded-login index, positionally aligned with the records.
    pub closed spec fn folded_logins(&self) -> Seq<Seq<char>> {
        self.folded@.map_values(|s: String| s@)
    }

    /// Well-formedness: index aligned, identifiers and folded logins
    /// distinct, column widths held.
    pub open spec fn wf(&self) -> bool {
        &&& self.folded_logins().len() == self.records().len()
        &&& spec_ids_distinct(self.records())
        &&& spec_folded_distinct(self.folded_logins())
        &&& spec_sizes_ok(self.records())
    }

    /// The folded index really is the case folding of the stored logins.
    /// (Every operation preserves this; it is stated separately from
    /// `wf` so that callers never need to establish it.)
    pub open spec fn index_tied(&self) -> bool {
        forall|i: int|
            0 <= i < self.records().len() ==> self.folded_logins()[i] == lower_of(
                #[trigger] self.records()[i].login@,
            )
    }

    /// An empty table.
    pub fn new() -> (s: Self)
        ensures
            s.wf(),
            s.index_tied(),
            s.records() == Seq::<Model>::empty(),
    {
        let s = UserStore { users: Vec::new(), folded: Vec::new() };
        proof {
            assert(s.folded_logins() =~= Seq::<Seq<char>>::empty());
        }
        s
    }

    /// Position of the record with this identifier, if any.
    fn find_index(&self, id: u128) -> (r: Option<usize>)
        ensures
            r matches Some(i) ==> i < self.records().len() && self.records()[i as int].id == id,
            r is None ==> !spec_contains_id(self.records(), id),
    {
        let n = self.users.len();
        for k in 0..n
            invariant
                n == self.records().len(),
                forall|m: int| 0 <= m < k ==> self.records()[m].id != id,
        {
            if self.users[k].id == id {
                return Some(k);
            }
        }
        None
    }

    /// Whether the folded index holds `key` at a position other than
    /// `except`. (`usize::MAX` is never a valid position, so passing it
    /// scans the whole index.)
    fn has_folded_except(&self, key: &String, except: usize) -> (r: bool)
        ensures
            r == spec_has_folded_except(self.folded_logins(), key@, except as int),
    {
        let len = self.folded.len();
        for k in 0..len
            invariant
                len == self.folded_logins().len(),
                forall|m: int|
                    0 <= m < k && m != except ==> self.folded_logins()[m] != key@,
        {
            if k != except && self.folded[k] == *key {
                proof {
                    assert(self.folded_logins()[k as int] == key@);
                }
                return true;
            }
        }
        false
    }

    /// Inserts a fresh record: role defaults to `User`, both timestamps
    /// are set to `now`, and the folded login joins the unique index.
    /// The unique index is consulted first, so a login collision is always
    /// reported as `Conflict`, whatever else is wrong with the row. On any
    /// failure the store is untouched.
    pub fn create(&mut self, id: u128, new_user: NewUser, now: u64) -> (r: Result<
        Model,
        StoreError,
    >)
        requires
            old(self).wf(),
        ensures
            final(self).wf(),
            old(self).index_tied() ==> final(self).index_tied(),
            r is Err ==> final(self).records() == old(self).records() && final(self).folded_logins() == old(self).folded_logins(),
            r matches Err(e) ==> {
                &&& (e == StoreError::Conflict <==> spec_has_folded(
                    old(self).folded_logins(),
                    lower_of(new_user.login@),
                ))
                &&& (e == StoreError::Oversize ==> (new_user.login@.len() > MAX_LOGIN_LEN
                    || new_user.password@.len() > MAX_PASSWORD_LEN))
                &&& (e == StoreError::DuplicateId ==> spec_contains_id(
                    old(self).records(),
                    id,
                ))
                &&& (e == StoreError::Conflict || e == StoreError::Oversize || e
                    == StoreError::DuplicateId)
            },
            r matches Ok(m) ==> {
                &&& m.id == id
                &&& m.login == new_user.login
                &&& m.password == new_user.password
                &&& m.role == Role::User
                &&& m.created_at == now
                &&& m.updated_at == now
                &&& final(self).records() == old(self).records().push(m)
                &&& final(self).folded_logins() == old(self).folded_logins().push(
                    lower_of(new_user.login@),
                )
                &&& !spec_has_folded(old(self).folded_logins(), lower_of(new_user.login@))
                &&& !spec_contains_id(old(self).records(), id)
            },
            (new_user.login@.len() <= MAX_LOGIN_LEN && new_user.password@.len()
                <= MAX_PASSWORD_LEN && !spec_has_folded(
                old(self).folded_logins(),
                lower_of(new_user.login@),
            ) && !spec_contains_id(old(self).records(), id)) ==> r is Ok,
    {
        let key = lowercase(new_user.login.as_str());
        let len = self.folded.len();
        proof {
            assert(self.folded_logins().len() == len);
            assert(spec_has_folded(self.folded_logins(), key@) == spec_has_folded_except(
                self.folded_logins(),
                key@,
                usize::MAX as int,
            ));
        }
        if self.has_folded_except(&key, usize::MAX) {
            return Err(StoreError::Conflict);
        }
        if new_user.login.as_str().unicode_len() > MAX_LOGIN_LEN
            || new_user.password.as_str().unicode_len() > MAX_PASSWORD_LEN {
            return Err(StoreError::Oversize);
        }
        if self.find_index(id).is_some() {
            return Err(StoreError::DuplicateId);
        }
        let m = Model {
            id,
            login: new_user.login,
            password: new_user.password,
            role: Role::User,
            created_at: now,
            updated_at: now,
        };
        let result = m.clone();
        self.users.push(m);
        self.folded.push(key);
        proof {
            assert(self.folded_logins() =~= old(self).folded_logins().push(
                lower_of(result.login@),
            ));
        }
        Ok(result)
    }

    /// The record with this identifier, if any.
    pub fn get(&self, id: u128) -> (r: Option<Model>)
        ensures
            r matches Some(m) ==> m.id == id && self.records().contains(m),
            r is None ==> !spec_contains_id(self.records(), id),
    {
        match self.find_index(id) {
            Some(i) => {
                let m = self.users[i].clone();
                proof {
                    assert(self.records().contains(self.records()[i as int]));
                }
                Some(m)
            },
            None => None,
        }
    }

    /// The record with exactly this login, if any. The lookup is
    /// case-sensitive; only the unique index is case-folded.
    pub fn get_by_login(&self, login: &String) -> (r: Option<Model>)
        ensures
            r matches Some(m) ==> m.login@ == login@ && self.records().contains(m),
            r is None ==> !spec_contains_login(self.records(), login@),
    {
        let n = self.users.len();
        for k in 0..n
            invariant
                n == self.records().len(),
                forall|m: int| 0 <= m < k ==> self.records()[m].login@ != login@,
        {
            if self.users[k].login == *login {
                let m = self.users[k].clone();
                proof {
                    assert(self.records().contains(self.records()[k as int]));
                }
                return Some(m);
            }
        }
        None
    }

    /// The page `[offset, offset + limit)` of the records.
    pub fn get_many(&self, offset: Option<u64>, limit: Option<u64>) -> (r: Vec<Model>)
        ensures
            r@ == spec_page(self.records(), offset, limit),
    {
        let n = self.users.len();
        let off: u64 = match offset {
            Some(o) => o,
            None => 0,
        };
        let start: usize = if off >= n as u64 {
            n
        } else {
            off as usize
        };
        let remaining = n - start;
        let take: usize = match limit {
            Some(l) => if l >= remaining as u64 {
                remaining
            } else {
                l as usize
            },
            None => remaining,
        };
        let end = start + take;
        let mut out: Vec<Model> = Vec::new();
        for k in start..end
            invariant
                start <= k <= end <= n,
                n == self.records().len(),
                out@ == self.records().subrange(start as int, k as int),
        {
            out.push(self.users[k].clone());
            proof {
                assert(self.records().subrange(start as int, k + 1 as int) =~= self.records()
                    .subrange(start as int, k as int).push(self.records()[k as int]));
            }
        }
        proof {
            assert(out@ =~= spec_page(self.records(), offset, limit));
        }
        out
    }

    /// How many records the table holds.
    pub fn count(&self) -> (r: u64)
        ensures
            r == self.records().len(),
    {
        self.users.len() as u64
    }

    /// Whether a record with this identifier exists.
    pub fn id_exists(&self, id: u128) -> (r: bool)
        ensures
            r == spec_contains_id(self.records(), id),
    {
        match self.find_index(id) {
            Some(i) => {
                proof {
                    assert(spec_contains_id(self.records(), id));
                }
                true
            },
            None => false,
        }
    }

    /// Updates the record with `data.id`: only supplied fields change,
    /// `updated_at` is refreshed, and the folded index follows a changed
    /// login. The unique index is consulted right after the row lookup, so
    /// a login collision with a different row is always reported as
    /// `Conflict`. On any failure the store is untouched.
    pub fn update(&mut self, data: UpdateUser, now: u64) -> (r: Result<Model, StoreError>)
        requires
            old(self).wf(),
        ensures
            final(self).wf(),
            old(self).index_tied() ==> final(self).index_tied(),
            r is Err ==> final(self).records() == old(self).records() && final(self).folded_logins() == old(self).folded_logins(),
            r matches Err(e) ==> {
                &&& (e == StoreError::NotFound <==> !spec_contains_id(
                    old(self).records(),
                    data.id,
                ))
                &&& (e == StoreError::Conflict <==> (spec_contains_id(
                    old(self).records(),
                    data.id,
                ) && (data.login matches Some(l) && spec_has_folded_except(
                    old(self).folded_logins(),
                    lower_of(l@),
                    spec_id_index(old(self).records(), data.id),
                ))))
                &&& (e == StoreError::Oversize ==> ((data.login matches Some(l) && l@.len()
                    > MAX_LOGIN_LEN) || (data.password matches Some(p) && p@.len()
                    > MAX_PASSWORD_LEN)))
                &&& (e == StoreError::NotFound || e == StoreError::Conflict || e
                    == StoreError::Oversize)
            },
            r matches Ok(m) ==> {
                let i = spec_id_index(old(self).records(), data.id);
                &&& spec_contains_id(old(self).records(), data.id)
                &&& 0 <= i < old(self).records().len()
                &&& m == spec_updated(old(self).records()[i], data, now)
                &&& final(self).records() == old(self).records().update(i, m)
                &&& final(self).folded_logins() == old(self).folded_logins().update(
                    i,
                    if data.login is Some {
                        lower_of(data.login.unwrap()@)
                    } else {
                        old(self).folded_logins()[i]
                    },
                )
            },
            (spec_contains_id(old(self).records(), data.id) && (data.login matches Some(l)
                ==> l@.len() <= MAX_LOGIN_LEN && !spec_has_folded_except(
                old(self).folded_logins(),
                lower_of(l@),
                spec_id_index(old(self).records(), data.id),
            )) && (data.password matches Some(p) ==> p@.len() <= MAX_PASSWORD_LEN)) ==> r is Ok,
    {
        let idx = match self.find_index(data.id) {
            Some(i) => i,
            None => return Err(StoreError::NotFound),
        };
        proof {
            lemma_id_index_agrees(self.records(), data.id, idx as int);
        }
        let new_key: Option<String> = match &data.login {
            Some(l) => {
                let key = lowercase(l.as_str());
                if self.has_folded_except(&key, idx) {
                    return Err(StoreError::Conflict);
                }
                Some(key)
            },
            None => None,
        };
        match &data.login {
            Some(l) => if l.as_str().unicode_len() > MAX_LOGIN_LEN {
                return Err(StoreError::Oversize);
            },
            None => {},
        }
        match &data.password {
            Some(p) => if p.as_str().unicode_len() > MAX_PASSWORD_LEN {
                return Err(StoreError::Oversize);
            },
            None => {},
        }
        let mut m = self.users[idx].clone();
        let UpdateUser { id: _, login, password, role } = data;
        match login {
            Some(l) => {
                m.login = l;
            },
            None => {},
        }
        match password {
            Some(p) => {
                m.password = p;
            },
            None => {},
        }
        match role {
            Some(ro) => {
                m.role = ro;
            },
            None => {},
        }
        m.updated_at = now;
        let result = m.clone();
        self.users[idx] = m;
        match new_key {
            Some(k) => {
                self.folded[idx] = k;
            },
            None => {},
        }
        proof {
            assert(final(self).folded_logins() =~= old(self).folded_logins().update(
                idx as int,
                final(self).folded_logins()[idx as int],
            ));
        }
        Ok(result)
    }

    /// Removes the record with `data.id`, reporting how many rows were
    /// affected (one or zero). Removing an absent record is not an error.
    pub fn delete(&mut self, data: DeleteUser) -> (r: u64)
        requires
            old(self).wf(),
        ensures
            final(self).wf(),
            old(self).index_tied() ==> final(self).index_tied(),
            spec_contains_id(old(self).records(), data.id) ==> {
                let i = spec_id_index(old(self).records(), data.id);
                &&& r == 1
                &&& final(self).records() == old(self).records().remove(i)
                &&& final(self).folded_logins() == old(self).folded_logins().remove(i)
            },
            !spec_contains_id(old(self).records(), data.id) ==> r == 0 && final(self).records()
                == old(self).records() && final(self).folded_logins() == old(self).folded_logins(),
    {
        match self.find_index(data.id) {
            Some(i) => {
                proof {
                    lemma_id_index_agrees(self.records(), data.id, i as int);
                }
                self.users.remove(i);
                self.folded.remove(i);
                proof {
                    assert(final(self).folded_logins() =~= old(self).folded_logins().remove(
                        i as int,
                    ));
                }
                1
            },
            None => 0,
        }
    }
}

/// With distinct identifiers, any position holding `id` is the position
/// `spec_id_index` picks.
pub proof fn lemma_id_index_agrees(s: Seq<Model>, id: u128, i: int)
    requires
        spec_ids_distinct(s),
        0 <= i < s.len(),
        s[i].id == id,
    ensures
        spec_id_index(s, id) == i,
{
    let c = spec_id_index(s, id);
    assert(spec_contains_id(s, id));
    if c < i {
        assert(s[c].id != s[i].id);
    } else if c > i {
        assert(s[i].id != s[c].id);
    }
}

/// Case-insensitive login uniqueness: in a well-formed store whose folded
/// index is tied to the records, no two records' logins agree up to case —
/// so at most one account can ever exist for logins differing only by
/// case.
pub proof fn lemma_case_insensitive_uniqueness(s: UserStore, i: int, j: int)
    requires
        s.wf(),
        0 <= i < j < s.records().len(),
    ensures
        s.index_tied() ==> lower_of(s.records()[i].login@) != lower_of(s.records()[j].login@),
{
    if s.index_tied() {
        assert(s.folded_logins()[i] == lower_of(s.records()[i].login@));
        assert(s.folded_logins()[j] == lower_of(s.records()[j].login@));
        assert(s.folded_logins()[i] != s.folded_logins()[j]);
    }
}

/// A corollary: two distinct records never hold the same exact login —
/// equal logins would fold equal, against the index's distinctness. So a
/// lookup by login identifies at most one record.
pub proof fn lemma_logins_distinct(s: UserStore, i: int, j: int)
    requires
        s.wf(),
        0 <= i < j < s.records().len(),
    ensures
        s.index_tied() ==> s.records()[i].login@ != s.records()[j].login@,
{
    lemma_case_insensitive_uniqueness(s, i, j);
    if s.index_tied() && s.records()[i].login@ == s.records()[j].login@ {
        assert(lower_of(s.records()[i].login@) == lower_of(s.records()[j].login@));
    }
}

} // verus!
