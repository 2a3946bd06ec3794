//! User-management handlers: role-aware target resolution and the
//! transaction boundary around the user service.
//!
//! Target resolution is the authorization rule of the mutation endpoints:
//! an Admin caller may aim at any explicit target id (their own when none
//! is supplied); any other caller's target is forced to their own account,
//! whatever id the request carries.

use vstd::prelude::*;

use crate::entity::Role;
use crate::errors::AppError;
use crate::hash::Argon2Hasher;
use crate::hash::password_verifies;
use crate::requests::CreateUser;
use crate::requests::DeleteUser as DeleteUserRequest;
use crate::requests::UpdateUser as UpdateUserRequest;
use crate::responses::Status;
use crate::responses::User;
use crate::responses::UserData;
use crate::service::UserService;
use crate::service::spec_login_collides;
use crate::service::spec_login_taken;
use crate::service::spec_public;
use crate::store::UserStore;
use crate::store::spec_contains_id;
use crate::store::spec_id_index;
use crate::store::spec_page;

verus! {

/// The record a caller is permitted to aim at: an Admin reaches the
/// requested id (their own if none was given); anyone else only ever
/// reaches their own record.
pub open spec fn spec_resolve_target(
    caller_role: Role,
    caller_id: u128,
    requested: Option<u128>,
) -> u128 {
    if caller_role == Role::Admin {
        if requested is Some {
            requested.unwrap()
        } else {
            caller_id
        }
    } else {
        caller_id
    }
}

/// Role-aware target resolution (see [`spec_resolve_target`]).
pub fn resolve_target(caller: &User, requested: Option<u128>) -> (r: u128)
    ensures
        r == spec_resolve_target(caller.role, caller.id, requested),
        caller.role != Role::Admin ==> r == caller.id,
{
    if caller.role == Role::Admin {
        match requested {
            Some(id) => id,
            None => caller.id,
        }
    } else {
        caller.id
    }
}

/// A non-admin caller's resolved target is their own account, whatever
/// explicit id the request carries.
pub proof fn lemma_non_admin_targets_self(
    caller_role: Role,
    caller_id: u128,
    requested: Option<u128>,
)
    ensures
        caller_role != Role::Admin ==> spec_resolve_target(caller_role, caller_id, requested)
            == caller_id,
{
}

/// Creates an account inside one store transaction: on success exactly the
/// new record is appended; on any failure the store is untouched and the
/// original error is surfaced.
pub fn create_user(
    store: &mut UserStore,
    data: CreateUser,
    hasher: &Argon2Hasher,
    now: u64,
) -> (r: Result<User, AppError>)
    requires
        old(store).wf(),
    ensures
        final(store).wf(),
        old(store).index_tied() ==> final(store).index_tied(),
        r is Err ==> final(store).records() == old(store).records() && final(
            store).folded_logins() == old(store).folded_logins(),
        r matches Err(e) ==> {
            ||| (e is BadRequestError && e.spec_message().message@ == "Failed to hash password"@)
            ||| (e is ConflictError && e.spec_message().message@ == "User already exists"@
                && spec_login_taken(*old(store), data.login@))
            ||| e is UnknownError
        },
        r matches Err(e) && e is UnknownError ==> !spec_login_taken(*old(store), data.login@),
        r matches Ok(u) ==> {
            let m = final(store).records().last();
            &&& !spec_login_taken(*old(store), data.login@)
            &&& final(store).records() == old(store).records().push(m)
            &&& !spec_contains_id(old(store).records(), u.id)
            &&& m.id == u.id
            &&& m.login == data.login
            &&& m.role == Role::User
            &&& m.created_at == now
            &&& m.updated_at == now
            &&& password_verifies(m.password@, data.password@)
            &&& m.password@.len() > 0
            &&& m.password@[0] == '$'
            &&& u == spec_public(m)
        },
{
    UserService::new().create(store, data, hasher, now)
}

/// Updates an account after role-aware target resolution, inside one store
/// transaction. Only the resolved target's record can change; every other
/// record is untouched, and nothing changes on failure.
pub fn update_user(
    store: &mut UserStore,
    user: User,
    data: UpdateUserRequest,
    hasher: &Argon2Hasher,
    now: u64,
) -> (r: Result<User, AppError>)
    requires
        old(store).wf(),
    ensures
        final(store).wf(),
        old(store).index_tied() ==> final(store).index_tied(),
        r is Err ==> final(store).records() == old(store).records() && final(
            store).folded_logins() == old(store).folded_logins(),
        r matches Err(e) ==> e is ConflictError || e is BadRequestError || e is UnknownError,
        r matches Err(e) ==> (e is ConflictError ==> (data.login matches Some(l)
            && spec_login_collides(
            *old(store),
            spec_resolve_target(user.role, user.id, data.id),
            l@,
        ))),
        ({
            let target = spec_resolve_target(user.role, user.id, data.id);
            (r matches Err(e) && e is UnknownError && old(store).index_tied()
                && spec_contains_id(old(store).records(), target)) ==> !(
            data.login matches Some(l) && spec_login_collides(*old(store), target, l@))
        }),
        ({
            let target = spec_resolve_target(user.role, user.id, data.id);
            (data.password is None && spec_contains_id(old(store).records(), target) && (
            data.login matches Some(l) ==> l@.len() <= crate::store::MAX_LOGIN_LEN
                && !spec_login_collides(*old(store), target, l@))) ==> r is Ok
        }),
        r matches Ok(u) ==> {
            let target = spec_resolve_target(user.role, user.id, data.id);
            let i = spec_id_index(old(store).records(), target);
            let old_m = old(store).records()[i];
            let m = final(store).records()[i];
            &&& spec_contains_id(old(store).records(), target)
            &&& 0 <= i < old(store).records().len()
            &&& final(store).records() == old(store).records().update(i, m)
            &&& m.id == target
            &&& m.created_at == old_m.created_at
            &&& m.updated_at == now
            &&& m.login == (if data.login is Some {
                data.login.unwrap()
            } else {
                old_m.login
            })
            &&& m.role == (if data.role is Some {
                data.role.unwrap()
            } else {
                old_m.role
            })
            &&& (data.password matches Some(p) ==> password_verifies(m.password@, p@)
                && m.password@.len() > 0 && m.password@[0] == '$')
            &&& (data.password is None ==> m.password == old_m.password)
            &&& u == spec_public(m)
        },
        user.role != Role::Admin && r is Ok ==> final(store).records()[spec_id_index(
            old(store).records(),
            user.id,
        )].id == user.id,
{
    let target = resolve_target(&user, data.id);
    UserService::new().update(store, target, data, hasher, now)
}

/// Deletes an account after role-aware target resolution, inside one store
/// transaction. Fails with NotFound if the resolved target does not exist;
/// only the resolved target's record can disappear.
pub fn delete_user_handler(store: &mut UserStore, user: User, body: DeleteUserRequest) -> (r:
    Result<Status, AppError>)
    requires
        old(store).wf(),
    ensures
        final(store).wf(),
        old(store).index_tied() ==> final(store).index_tied(),
        r is Ok <==> spec_contains_id(
            old(store).records(),
            spec_resolve_target(user.role, user.id, body.id),
        ),
        r matches Err(e) ==> e is NotFoundError && e.spec_message().message@
            == "User not found"@ && final(store).records() == old(store).records() && final(
            store).folded_logins() == old(store).folded_logins(),
        r matches Ok(st) ==> {
            let target = spec_resolve_target(user.role, user.id, body.id);
            let i = spec_id_index(old(store).records(), target);
            &&& st.status == true
            &&& final(store).records() == old(store).records().remove(i)
            &&& final(store).folded_logins() == old(store).folded_logins().remove(i)
            &&& old(store).records()[i].id == target
        },
{
    let target = resolve_target(&user, body.id);
    proof {
        if spec_contains_id(old(store).records(), target) {
            let i = spec_id_index(old(store).records(), target);
            assert(0 <= i < old(store).records().len() && old(store).records()[i].id == target);
        }
    }
    UserService::new().delete(store, target)
}

/// Reads one account by identifier.
pub fn get_user(store: &UserStore, user_id: u128) -> (r: Result<User, AppError>)
    ensures
        r matches Ok(u) ==> u.id == user_id && exists|i: int|
            0 <= i < store.records().len() && #[trigger] store.records()[i].id == user_id && u
                == spec_public(store.records()[i]),
        r matches Err(e) ==> !spec_contains_id(store.records(), user_id) && e is NotFoundError,
        r is Ok <==> spec_contains_id(store.records(), user_id),
{
    UserService::new().get(store, user_id)
}

/// Reads a page of accounts with the total count.
pub fn get_many_users(store: &UserStore, offset: Option<u64>, limit: Option<u64>) -> (r: Result<
    UserData,
    AppError,
>)
    ensures
        r is Ok,
        r matches Ok(d) ==> d.total == store.records().len() && d.data@ == spec_page(
            store.records(),
            offset,
            limit,
        ).map_values(|m: crate::entity::Model| spec_public(m)),
{
    UserService::new().get_many(store, offset, limit)
}

} // verus!
