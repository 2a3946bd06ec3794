//! User service: business rules atop the store.
//!
//! Owns hashing and conflict checking; every mutating operation is atomic
//! with respect to the store (the transactional contract: on success
//! exactly the documented change, on any error no change at all).

use vstd::prelude::*;
use vstd::string::*;

use crate::entity::Model;
use crate::entity::Role;
use crate::errors::AppError;
use crate::errors::AppErrorMessage;
use crate::errors::plain_message;
use crate::hash::Argon2Hasher;
use crate::hash::password_verifies;
use crate::ids::generate_id;
use crate::requests::CreateUser;
use crate::requests::UpdateUser as UpdateUserRequest;
use crate::responses::Status;
use crate::responses::User;
use crate::responses::UserData;
use crate::store::DeleteUser;
use crate::store::NewUser;
use crate::store::StoreError;
use crate::store::UpdateUser;
use crate::store::UserStore;
use crate::store::lower_of;
use crate::store::spec_contains_id;
use crate::store::spec_contains_login;
use crate::store::spec_has_folded;
use crate::store::spec_has_folded_except;
use crate::store::spec_id_index;
use crate::store::spec_page;

verus! {

/// The public shape of a stored record: everything but the password.
pub open spec fn spec_public(m: Model) -> User {
    User { id: m.id, login: m.login, role: m.role, created_at: m.created_at }
}

/// Whether creating an account under `login` would violate uniqueness:
/// either the exact login exists (the service's friendly pre-check) or a
/// login equal up to case does (the unique index).
pub open spec fn spec_login_taken(store: UserStore, login: Seq<char>) -> bool {
    spec_contains_login(store.records(), login) || spec_has_folded(
        store.folded_logins(),
        lower_of(login),
    )
}

/// Whether a record other than `id` holds exactly this login.
pub open spec fn spec_other_user_has_login(store: UserStore, id: u128, login: Seq<char>) -> bool {
    exists|i: int|
        0 <= i < store.records().len() && store.records()[i].id != id
            && #[trigger] store.records()[i].login@ == login
}

/// Whether updating `id`'s login to `login` would violate uniqueness:
/// another record holds it exactly, or holds one equal up to case.
pub open spec fn spec_login_collides(store: UserStore, id: u128, login: Seq<char>) -> bool {
    spec_other_user_has_login(store, id, login) || spec_has_folded_except(
        store.folded_logins(),
        lower_of(login),
        spec_id_index(store.records(), id),
    )
}

/// With a tied index, a different record holding the exact login implies a
/// folded-index collision for the target: the other record's folded login
/// is the folding of the login in question, at a position other than the
/// target's.
proof fn lemma_exact_collision_folds(s: UserStore, id: u128, l: Seq<char>)
    requires
        s.wf(),
        s.index_tied(),
        spec_contains_id(s.records(), id),
        spec_other_user_has_login(s, id, l),
    ensures
        spec_has_folded_except(s.folded_logins(), lower_of(l), spec_id_index(s.records(), id)),
{
    let k = choose|k: int|
        0 <= k < s.records().len() && s.records()[k].id != id && #[trigger] s.records()[k].login@
            == l;
    let t = spec_id_index(s.records(), id);
    assert(0 <= t < s.records().len() && s.records()[t].id == id);
    assert(k != t);
    assert(s.folded_logins()[k] == lower_of(s.records()[k].login@));
}

/// The business-rule layer. It holds no state of its own: the store is
/// handed in explicitly as the transaction scope of each call.
pub struct UserService {}

impl UserService {
    pub fn new() -> (s: UserService) {
        UserService {  }
    }

    /// Creates an account: hash the password first, then check the login
    /// and insert, all within the one store scope. Fails with Conflict if
    /// the login is taken (exactly or up to case); the stored password is
    /// a digest that verifies against the plaintext, never the plaintext.
    pub fn create(
        &self,
        store: &mut UserStore,
        data: CreateUser,
        hasher: &Argon2Hasher,
        now: u64,
    ) -> (r: Result<User, AppError>)
        requires
            old(store).wf(),
        ensures
            final(store).wf(),
            old(store).index_tied() ==> final(store).index_tied(),
            r is Err ==> final(store).records() == old(store).records() && final(store).folded_logins() == old(store).folded_logins(),
            r matches Err(e) ==> {
                ||| (e is BadRequestError && e.spec_message().message@
                    == "Failed to hash password"@)
                ||| (e is ConflictError && e.spec_message().message@ == "User already exists"@
                    && spec_login_taken(*old(store), data.login@))
                ||| e is UnknownError
            },
            r matches Err(e) && e is UnknownError ==> !spec_login_taken(
                *old(store),
                data.login@,
            ),
            r matches Ok(u) ==> {
                let m = final(store).records().last();
                &&& !spec_login_taken(*old(store), data.login@)
                &&& final(store).records() == old(store).records().push(m)
                &&& !spec_contains_id(old(store).records(), u.id)
                &&& m.id == u.id
                &&& m.login == data.login
                &&& m.role == Role::User
                &&& m.created_at == now
                &&& m.updated_at == now
                &&& password_verifies(m.password@, data.password@)
                &&& m.password@.len() > 0
                &&& m.password@[0] == '$'
                &&& u == spec_public(m)
            },
    {
        let hashed = match hasher.hash_password(data.password.as_str()) {
            Ok(h) => h,
            Err(e) => return Err(e),
        };
        match store.get_by_login(&data.login) {
            Some(_) => {
                return Err(
                    AppError::ConflictError(
                        AppErrorMessage {
                            message: "User already exists".to_owned(),
                            details: Some(data.login),
                        },
                    ),
                );
            },
            None => {},
        }
        let id = generate_id();
        let login_copy = data.login.clone();
        match store.create(id, NewUser { login: data.login, password: hashed }, now) {
            Ok(m) => Ok(
                User { id: m.id, login: m.login, role: m.role, created_at: m.created_at },
            ),
            Err(StoreError::Conflict) => Err(
                AppError::ConflictError(
                    AppErrorMessage {
                        message: "User already exists".to_owned(),
                        details: Some(login_copy),
                    },
                ),
            ),
            Err(_) => Err(AppError::UnknownError(plain_message("Storage rejected the insert"))),
        }
    }

    /// Looks an account up by identifier; fails with NotFound if absent.
    pub fn get(&self, store: &UserStore, id: u128) -> (r: Result<User, AppError>)
        ensures
            r matches Ok(u) ==> u.id == id && exists|i: int|
                0 <= i < store.records().len() && #[trigger] store.records()[i].id == id && u
                    == spec_public(store.records()[i]),
            r matches Err(e) ==> !spec_contains_id(store.records(), id) && e is NotFoundError
                && e.spec_message().message@ == "User not found"@,
            r is Ok <==> spec_contains_id(store.records(), id),
    {
        match store.get(id) {
            Some(m) => {
                proof {
                    let i = choose|i: int|
                        0 <= i < store.records().len() && store.records()[i] == m;
                    assert(store.records()[i].id == id);
                }
                Ok(User { id: m.id, login: m.login, role: m.role, created_at: m.created_at })
            },
            None => Err(AppError::NotFoundError(plain_message("User not found"))),
        }
    }

    /// Lists a page of accounts with the total count. The count is a plain
    /// read of this store and cannot fail, so no degraded empty result
    /// exists here (the fail-open path this replaces masked storage
    /// failures and is documented as a defect, not a contract).
    pub fn get_many(&self, store: &UserStore, offset: Option<u64>, limit: Option<u64>) -> (r:
        Result<UserData, AppError>)
        ensures
            r is Ok,
            r matches Ok(d) ==> d.total == store.records().len() && d.data@ == spec_page(
                store.records(),
                offset,
                limit,
            ).map_values(|m: Model| spec_public(m)),
    {
        let total = store.count();
        let page = store.get_many(offset, limit);
        let n = page.len();
        let mut data: Vec<User> = Vec::new();
        for k in 0..n
            invariant
                n == page.len(),
                data@.len() == k,
                forall|t: int| 0 <= t < k ==> data@[t] == spec_public(page@[t]),
        {
            let m = &page[k];
            data.push(
                User { id: m.id, login: m.login.clone(), role: m.role, created_at: m.created_at },
            );
        }
        proof {
            assert(data@ =~= page@.map_values(|m: Model| spec_public(m)));
        }
        Ok(UserData { total, data })
    }

    /// Updates the account `id`: a supplied login must not collide with a
    /// different user (Conflict otherwise), a supplied password is hashed
    /// before writing, only supplied fields change, `updated_at` is
    /// refreshed. Atomic: on any failure the store is untouched.
    pub fn update(
        &self,
        store: &mut UserStore,
        id: u128,
        data: UpdateUserRequest,
        hasher: &Argon2Hasher,
        now: u64,
    ) -> (r: Result<User, AppError>)
        requires
            old(store).wf(),
        ensures
            final(store).wf(),
            old(store).index_tied() ==> final(store).index_tied(),
            r is Err ==> final(store).records() == old(store).records() && final(store).folded_logins() == old(store).folded_logins(),
            r matches Err(e) ==> {
                ||| (e is ConflictError && e.spec_message().message@ == "Login already exists"@
                    && (data.login matches Some(l) && spec_login_collides(
                    *old(store),
                    id,
                    l@,
                )))
                ||| (e is BadRequestError && e.spec_message().message@
                    == "Failed to hash password"@)
                ||| e is UnknownError
            },
            (r matches Err(e) && e is UnknownError && old(store).index_tied()
                && spec_contains_id(old(store).records(), id)) ==> !(data.login matches Some(l)
                && spec_login_collides(*old(store), id, l@)),
            (data.password is None && spec_contains_id(old(store).records(), id) && (
            data.login matches Some(l) ==> l@.len() <= crate::store::MAX_LOGIN_LEN
                && !spec_login_collides(*old(store), id, l@))) ==> r is Ok,
            r matches Ok(u) ==> {
                let i = spec_id_index(old(store).records(), id);
                let old_m = old(store).records()[i];
                let m = final(store).records()[i];
                &&& spec_contains_id(old(store).records(), id)
                &&& 0 <= i < old(store).records().len()
                &&& final(store).records() == old(store).records().update(i, m)
                &&& m.id == id
                &&& m.created_at == old_m.created_at
                &&& m.updated_at == now
                &&& m.login == (if data.login is Some {
                    data.login.unwrap()
                } else {
                    old_m.login
                })
                &&& m.role == (if data.role is Some {
                    data.role.unwrap()
                } else {
                    old_m.role
                })
                &&& (data.password matches Some(p) ==> password_verifies(m.password@, p@)
                    && m.password@.len() > 0 && m.password@[0] == '$')
                &&& (data.password is None ==> m.password == old_m.password)
                &&& u == spec_public(m)
            },
    {
        match &data.login {
            Some(l) => {
                match store.get_by_login(l) {
                    Some(existing) => if existing.id != id {
                        proof {
                            let k = choose|k: int|
                                0 <= k < store.records().len() && store.records()[k] == existing;
                            assert(store.records()[k].login@ == l@ && store.records()[k].id
                                != id);
                            assert(spec_other_user_has_login(*store, id, l@));
                        }
                        return Err(
                            AppError::ConflictError(
                                AppErrorMessage {
                                    message: "Login already exists".to_owned(),
                                    details: Some(l.clone()),
                                },
                            ),
                        );
                    },
                    None => {},
                }
            },
            None => {},
        }
        let hashed_password: Option<String> = match &data.password {
            Some(p) => match hasher.hash_password(p.as_str()) {
                Ok(h) => Some(h),
                Err(e) => return Err(e),
            },
            None => None,
        };
        let update = UpdateUser {
            id,
            login: data.login,
            password: hashed_password,
            role: data.role,
        };
        match store.update(update, now) {
            Ok(m) => Ok(User { id: m.id, login: m.login, role: m.role, created_at: m.created_at }),
            Err(StoreError::Conflict) => {
                Err(
                    AppError::ConflictError(
                        AppErrorMessage {
                            message: "Login already exists".to_owned(),
                            details: None,
                        },
                    ),
                )
            },
            Err(_) => {
                proof {
                    if old(store).index_tied() && spec_contains_id(old(store).records(), id)
                        && data.login is Some && spec_login_collides(
                        *old(store),
                        id,
                        data.login.unwrap()@,
                    ) {
                        let l = data.login.unwrap()@;
                        if spec_other_user_has_login(*old(store), id, l) {
                            lemma_exact_collision_folds(*old(store), id, l);
                        }
                        assert(spec_has_folded_except(
                            old(store).folded_logins(),
                            lower_of(l),
                            spec_id_index(old(store).records(), id),
                        ));
                        assert(false);
                    }
                }
                Err(AppError::UnknownError(plain_message("Storage rejected the update")))
            },
        }
    }

    /// Deletes the account `id`; fails with NotFound if it does not exist.
    pub fn delete(&self, store: &mut UserStore, id: u128) -> (r: Result<Status, AppError>)
        requires
            old(store).wf(),
        ensures
            final(store).wf(),
            old(store).index_tied() ==> final(store).index_tied(),
            r is Ok <==> spec_contains_id(old(store).records(), id),
            r matches Err(e) ==> e is NotFoundError && e.spec_message().message@
                == "User not found"@ && final(store).records() == old(store).records() && final(store).folded_logins() == old(store).folded_logins(),
            r matches Ok(st) ==> st.status == true && final(store).records() == old(store).records().remove(spec_id_index(old(store).records(), id)) && final(store).folded_logins() == old(store).folded_logins().remove(
                spec_id_index(old(store).records(), id),
            ),
    {
        if !store.id_exists(id) {
            return Err(AppError::NotFoundError(plain_message("User not found")));
        }
        let rows = store.delete(DeleteUser { id });
        Ok(Status { status: rows > 0 })
    }
}

} // verus!
