//! Account creation, lookup, update and deletion through the user store,
//! service and handlers, including the uniqueness and authorization rules.

use identity_core::entity::Role;
use identity_core::errors::AppError;
use identity_core::handlers::create_user;
use identity_core::handlers::delete_user_handler;
use identity_core::handlers::get_many_users;
use identity_core::handlers::get_user;
use identity_core::handlers::update_user;
use identity_core::hash::get_argon2_default;
use identity_core::hash::Argon2Hasher;
use identity_core::jwt::JWT;
use identity_core::requests::CreateUser;
use identity_core::requests::DeleteUser;
use identity_core::requests::LoginUser;
use identity_core::requests::UpdateUser;
use identity_core::session::login_handler;
use identity_core::responses::User;
use identity_core::store::UserStore;

const NOW: u64 = 1_700_000_000;

fn setup() -> (UserStore, Argon2Hasher) {
    (UserStore::new(), get_argon2_default())
}

fn add_user(store: &mut UserStore, hasher: &Argon2Hasher, login: &str, password: &str) -> User {
    let data = CreateUser { login: login.to_string(), password: password.to_string() };
    match create_user(store, data, hasher, NOW) {
        Ok(u) => u,
        Err(_) => panic!("creating {} should succeed", login),
    }
}

#[test]
fn create_then_get_returns_the_user() {
    let (mut store, hasher) = setup();
    let created = add_user(&mut store, &hasher, "alice", "wonderland");
    assert_eq!(created.login, "alice");
    assert!(matches!(created.role, Role::User));
    assert_eq!(created.created_at, NOW);

    let fetched = match get_user(&store, created.id) {
        Ok(u) => u,
        Err(_) => panic!("get should find the new user"),
    };
    assert_eq!(fetched.id, created.id);
    assert_eq!(fetched.login, "alice");
}

#[test]
fn create_is_case_insensitively_unique() {
    let (mut store, hasher) = setup();
    add_user(&mut store, &hasher, "alice", "wonderland");

    let second = CreateUser { login: "Alice".to_string(), password: "other".to_string() };
    match create_user(&mut store, second, &hasher, NOW) {
        Err(AppError::ConflictError(m)) => assert_eq!(&*m.message, "User already exists"),
        _ => panic!("a login differing only by case must conflict"),
    }

    let exact = CreateUser { login: "alice".to_string(), password: "other".to_string() };
    match create_user(&mut store, exact, &hasher, NOW) {
        Err(AppError::ConflictError(_)) => {}
        _ => panic!("the exact login must conflict"),
    }
}

#[test]
fn stored_password_is_a_digest_not_the_plaintext() {
    let hasher = get_argon2_default();
    let digest = match hasher.hash_password("wonderland") {
        Ok(h) => h,
        Err(_) => panic!("hashing should succeed"),
    };
    assert_ne!(digest, "wonderland");
    assert!(digest.starts_with('$'));
    assert!(hasher.verify_password(&digest, "wonderland"));
    assert!(!hasher.verify_password(&digest, "Wonderland"));
    assert!(!hasher.verify_password("not-a-digest", "wonderland"));
}

#[test]
fn get_unknown_user_is_not_found() {
    let (store, _hasher) = setup();
    match get_user(&store, 42) {
        Err(AppError::NotFoundError(m)) => assert_eq!(&*m.message, "User not found"),
        _ => panic!("an unknown id must be NotFound"),
    }
}

#[test]
fn list_reports_total_and_page() {
    let (mut store, hasher) = setup();
    add_user(&mut store, &hasher, "alice", "pw-a");
    add_user(&mut store, &hasher, "bob", "pw-b");
    add_user(&mut store, &hasher, "carol", "pw-c");

    let all = get_many_users(&store, None, None).ok().unwrap();
    assert_eq!(all.total, 3);
    assert_eq!(all.data.len(), 3);

    let page = get_many_users(&store, Some(1), Some(1)).ok().unwrap();
    assert_eq!(page.total, 3);
    assert_eq!(page.data.len(), 1);
    assert_eq!(page.data[0].login, "bob");

    let beyond = get_many_users(&store, Some(10), Some(5)).ok().unwrap();
    assert_eq!(beyond.total, 3);
    assert!(beyond.data.is_empty());
}

#[test]
fn non_admin_update_only_affects_own_record() {
    let (mut store, hasher) = setup();
    let alice = add_user(&mut store, &hasher, "alice", "pw-a");
    let bob = add_user(&mut store, &hasher, "bob", "pw-b");

    // Alice (role User) aims an explicit update at Bob's id.
    let request = UpdateUser {
        id: Some(bob.id),
        login: Some("renamed".to_string()),
        password: None,
        role: None,
    };
    let updated = match update_user(&mut store, alice.clone(), request, &hasher, NOW + 5) {
        Ok(u) => u,
        Err(_) => panic!("updating own record should succeed"),
    };
    assert_eq!(updated.id, alice.id, "the change must land on the caller");

    assert_eq!(get_user(&store, alice.id).ok().unwrap().login, "renamed");
    assert_eq!(get_user(&store, bob.id).ok().unwrap().login, "bob");
}

#[test]
fn non_admin_delete_only_affects_own_record() {
    let (mut store, hasher) = setup();
    let alice = add_user(&mut store, &hasher, "alice", "pw-a");
    let bob = add_user(&mut store, &hasher, "bob", "pw-b");

    let status = match delete_user_handler(&mut store, alice.clone(), DeleteUser {
        id: Some(bob.id),
    }) {
        Ok(s) => s,
        Err(_) => panic!("deleting own record should succeed"),
    };
    assert!(status.status);
    assert!(get_user(&store, alice.id).is_err(), "the caller's record is gone");
    assert!(get_user(&store, bob.id).is_ok(), "the explicit target survives");
}

#[test]
fn admin_update_reaches_the_requested_target() {
    let (mut store, hasher) = setup();
    let alice = add_user(&mut store, &hasher, "alice", "pw-a");
    let bob = add_user(&mut store, &hasher, "bob", "pw-b");

    // Alice promotes herself (a caller may set their own role), then
    // targets Bob as an admin.
    let promote = UpdateUser {
        id: None,
        login: None,
        password: None,
        role: Some(Role::Admin),
    };
    let alice = update_user(&mut store, alice, promote, &hasher, NOW + 1).ok().unwrap();
    assert!(matches!(alice.role, Role::Admin));

    let request = UpdateUser {
        id: Some(bob.id),
        login: Some("robert".to_string()),
        password: None,
        role: None,
    };
    let updated = update_user(&mut store, alice.clone(), request, &hasher, NOW + 2).ok().unwrap();
    assert_eq!(updated.id, bob.id);
    assert_eq!(get_user(&store, bob.id).ok().unwrap().login, "robert");
    assert_eq!(get_user(&store, alice.id).ok().unwrap().login, "alice");
}

#[test]
fn update_login_collision_is_conflict() {
    let (mut store, hasher) = setup();
    let alice = add_user(&mut store, &hasher, "alice", "pw-a");
    add_user(&mut store, &hasher, "bob", "pw-b");

    let request = UpdateUser {
        id: None,
        login: Some("BOB".to_string()),
        password: None,
        role: None,
    };
    match update_user(&mut store, alice.clone(), request, &hasher, NOW + 1) {
        Err(AppError::ConflictError(_)) => {}
        _ => panic!("taking another user's login up to case must conflict"),
    }

    // Re-supplying one's own login is not a collision with a different user.
    let own = UpdateUser {
        id: None,
        login: Some("alice".to_string()),
        password: None,
        role: None,
    };
    assert!(update_user(&mut store, alice, own, &hasher, NOW + 2).is_ok());
}

#[test]
fn update_password_changes_what_verifies() {
    let (mut store, hasher) = setup();
    let alice = add_user(&mut store, &hasher, "alice", "old-password");

    let request = UpdateUser {
        id: None,
        login: None,
        password: Some("new-password".to_string()),
        role: None,
    };
    update_user(&mut store, alice.clone(), request, &hasher, NOW + 1).ok().unwrap();

    let jwt = match JWT::new("HS256".to_string(), "c2VjcmV0".to_string(), "c2VjcmV0".to_string(), 3600, 86400) {
        Ok(j) => j,
        Err(_) => panic!("token service config"),
    };
    let old_try = LoginUser { login: "alice".to_string(), password: "old-password".to_string() };
    assert!(matches!(
        login_handler(&store, &hasher, &jwt, old_try, NOW + 2),
        Err(AppError::BadRequestError(_))
    ));
    let new_try = LoginUser { login: "alice".to_string(), password: "new-password".to_string() };
    assert!(login_handler(&store, &hasher, &jwt, new_try, NOW + 2).is_ok());
}

#[test]
fn delete_missing_target_is_not_found() {
    let (mut store, hasher) = setup();
    let alice = add_user(&mut store, &hasher, "alice", "pw-a");
    delete_user_handler(&mut store, alice.clone(), DeleteUser { id: None }).ok().unwrap();
    match delete_user_handler(&mut store, alice, DeleteUser { id: None }) {
        Err(AppError::NotFoundError(_)) => {}
        _ => panic!("deleting an absent record must be NotFound"),
    }
}

#[test]
fn oversize_login_is_rejected_and_store_untouched() {
    let (mut store, hasher) = setup();
    let long_login = "x".repeat(129);
    let data = CreateUser { login: long_login, password: "pw".to_string() };
    match create_user(&mut store, data, &hasher, NOW) {
        Err(AppError::UnknownError(_)) => {}
        _ => panic!("a login wider than the column must be rejected"),
    }
    assert_eq!(get_many_users(&store, None, None).ok().unwrap().total, 0);
}
