use todos::actions::{
    create_new_todo, delete_existing_todo, get_all_todos, login_user, login_user_checked,
    register_user, update_existing_todo,
};
use todos::auth::{
    authorize, create_jwt, issue_token, validate_token, AuthError, AuthUser, LoginBody,
    TodoIsOfUser, TokenError,
};
use todos::error::TodosError;
use todos::models::{NewTodoReq, NewUser, UpdateTodo};
use todos::password::{hash_password, verify_password};
use todos::store::Store;

const SECRET: &[u8] = b"test-signing-secret";

fn now_secs() -> u64 {
    std::time::SystemTime::now()
        .duration_since(std::time::UNIX_EPOCH)
        .expect("clock before epoch")
        .as_secs()
}

fn store_with_user(name: &str) -> (Store, i32) {
    let mut store = Store::new();
    let user = store
        .insert_user(String::from(name), String::from("unused-hash"))
        .expect("insert_user failed");
    (store, user.id)
}

#[test]
fn register_then_login_roundtrip() {
    let mut store = Store::new();
    let resp = register_user(
        NewUser { username: String::from("alice"), password: String::from("hunter2") },
        &mut store,
        SECRET,
        1_000,
    )
    .expect("register failed");
    assert_eq!(resp.username, "alice");

    let ju = login_user(
        LoginBody { username: String::from("alice"), password: String::from("hunter2") },
        &store,
        SECRET,
        2_000,
    )
    .expect("login failed");
    assert_eq!(ju.id, resp.id);
    assert_eq!(ju.username, "alice");

    let claims = validate_token(&ju.token, SECRET, 2_500).expect("validate failed");
    assert_eq!(claims.id, resp.id);
    assert_eq!(claims.username, "alice");
}

#[test]
fn issue_then_validate_returns_claims() {
    let token = issue_token(7, "alice", SECRET, 1_000);
    let claims = validate_token(&token, SECRET, 1_000).expect("validate failed");
    assert_eq!(claims.id, 7);
    assert_eq!(claims.username, "alice");
    assert_eq!(claims.exp, 4_600);
    assert!(claims.exp > 1_000);
}

#[test]
fn expired_claims_fail_with_token_expired() {
    let token = issue_token(7, "alice", SECRET, 1_000);
    let err = validate_token(&token, SECRET, 10_000).expect_err("validation should fail");
    assert_eq!(err, TokenError::TokenExpired);
    assert_ne!(err, TokenError::TokenInvalid);
}

#[test]
fn validate_at_exact_expiry_is_expired() {
    let token = issue_token(7, "alice", SECRET, 1_000);
    let err = validate_token(&token, SECRET, 4_600).expect_err("validation should fail");
    assert_eq!(err, TokenError::TokenExpired);
}

#[test]
fn garbage_token_fails_with_token_invalid() {
    let err = validate_token("not.a.token", SECRET, 1_000).expect_err("validation should fail");
    assert_eq!(err, TokenError::TokenInvalid);
}

#[test]
fn wrong_secret_fails_with_token_invalid() {
    let token = issue_token(7, "alice", SECRET, 1_000);
    let err = validate_token(&token, b"other-secret", 1_000).expect_err("validation should fail");
    assert_eq!(err, TokenError::TokenInvalid);
}

#[test]
fn hashes_differ_but_both_verify() {
    let h1 = hash_password("swordfish").expect("hash failed");
    let h2 = hash_password("swordfish").expect("hash failed");
    assert_ne!(h1, h2);
    assert!(verify_password("swordfish", &h1));
    assert!(verify_password("swordfish", &h2));
    assert!(!verify_password("sword-fish", &h1));
}

#[test]
fn malformed_stored_hash_never_verifies() {
    assert!(!verify_password("anything", "not-a-phc-string"));
}

#[test]
fn checked_login_reports_a_malformed_stored_hash_as_a_store_fault() {
    let mut store = Store::new();
    store
        .insert_user(String::from("broken"), String::from("not-a-phc-string"))
        .expect("insert failed");
    let err = login_user_checked(
        LoginBody { username: String::from("broken"), password: String::from("anything") },
        &store,
        SECRET,
        1_000,
    )
    .expect_err("login should fail");
    assert_eq!(err, TodosError::DieselCrudError);
}

#[test]
fn checked_login_behaves_like_login_on_well_formed_hashes() {
    let mut store = Store::new();
    let resp = register_user(
        NewUser { username: String::from("erin"), password: String::from("pw") },
        &mut store,
        SECRET,
        1_000,
    )
    .expect("register failed");
    let ju = login_user_checked(
        LoginBody { username: String::from("erin"), password: String::from("pw") },
        &store,
        SECRET,
        1_000,
    )
    .expect("login failed");
    assert_eq!(ju.id, resp.id);
    let err = login_user_checked(
        LoginBody { username: String::from("erin"), password: String::from("nope") },
        &store,
        SECRET,
        1_000,
    )
    .expect_err("login should fail");
    assert_eq!(err, TodosError::BadCreds);
}

#[test]
fn patch_text_only() {
    let (mut store, uid) = store_with_user("u");
    let todo = create_new_todo(uid, NewTodoReq { text: String::from("a") }, &mut store)
        .expect("create failed");
    assert_eq!(todo.id, 1);
    assert_eq!(todo.text, "a");
    assert!(!todo.done);
    let updated =
        update_existing_todo(todo, UpdateTodo::TextOnly { text: String::from("b") }, &mut store)
            .expect("update failed");
    assert_eq!(updated.id, 1);
    assert_eq!(updated.text, "b");
    assert!(!updated.done);
}

#[test]
fn patch_done_only() {
    let (mut store, uid) = store_with_user("u");
    let todo = create_new_todo(uid, NewTodoReq { text: String::from("a") }, &mut store)
        .expect("create failed");
    let updated = update_existing_todo(todo, UpdateTodo::DoneOnly { done: true }, &mut store)
        .expect("update failed");
    assert_eq!(updated.id, 1);
    assert_eq!(updated.text, "a");
    assert!(updated.done);
}

#[test]
fn patch_both() {
    let (mut store, uid) = store_with_user("u");
    let todo = create_new_todo(uid, NewTodoReq { text: String::from("a") }, &mut store)
        .expect("create failed");
    let updated = update_existing_todo(
        todo,
        UpdateTodo::Both { text: String::from("c"), done: true },
        &mut store,
    )
    .expect("update failed");
    assert_eq!(updated.id, 1);
    assert_eq!(updated.text, "c");
    assert!(updated.done);
}

#[test]
fn login_failures_are_indistinguishable() {
    let mut store = Store::new();
    register_user(
        NewUser { username: String::from("u"), password: String::from("right") },
        &mut store,
        SECRET,
        1_000,
    )
    .expect("register failed");

    let wrong_password = login_user(
        LoginBody { username: String::from("u"), password: String::from("wrong") },
        &store,
        SECRET,
        1_000,
    )
    .expect_err("login should fail");
    let unknown_user = login_user(
        LoginBody { username: String::from("nonexistent"), password: String::from("anything") },
        &store,
        SECRET,
        1_000,
    )
    .expect_err("login should fail");
    assert_eq!(wrong_password, unknown_user);
    assert_eq!(wrong_password, TodosError::BadCreds);
}

#[test]
fn guard_hides_foreign_todo_like_a_missing_one() {
    let mut store = Store::new();
    let owner = store
        .insert_user(String::from("owner"), String::from("h1"))
        .expect("insert failed");
    let intruder = store
        .insert_user(String::from("intruder"), String::from("h2"))
        .expect("insert failed");
    let todo = create_new_todo(owner.id, NewTodoReq { text: String::from("secret") }, &mut store)
        .expect("create failed");

    let caller = AuthUser { id: intruder.id, username: String::from("intruder") };
    let foreign = TodoIsOfUser::check(&caller, todo.id, &store)
        .result
        .expect_err("foreign todo should be hidden");
    let missing = TodoIsOfUser::check(&caller, 9_999, &store)
        .result
        .expect_err("missing todo should fail");
    assert_eq!(foreign, TodosError::TodoNotFoundError);
    assert_eq!(foreign, missing);

    let owner_caller = AuthUser { id: owner.id, username: String::from("owner") };
    let found = TodoIsOfUser::check(&owner_caller, todo.id, &store)
        .result
        .expect("owner should see the todo");
    assert_eq!(found.id, todo.id);
    assert_eq!(found.text, "secret");
}

#[test]
fn listing_is_per_owner_in_store_order() {
    let mut store = Store::new();
    let u1 = store.insert_user(String::from("u1"), String::from("h")).expect("insert failed");
    let u2 = store.insert_user(String::from("u2"), String::from("h")).expect("insert failed");
    create_new_todo(u1.id, NewTodoReq { text: String::from("first") }, &mut store).unwrap();
    create_new_todo(u2.id, NewTodoReq { text: String::from("other") }, &mut store).unwrap();
    create_new_todo(u1.id, NewTodoReq { text: String::from("second") }, &mut store).unwrap();

    let mine = get_all_todos(u1.id, &store).expect("list failed");
    assert_eq!(mine.len(), 2);
    assert_eq!(mine[0].text, "first");
    assert_eq!(mine[1].text, "second");
    assert!(mine.iter().all(|t| t.user_id == u1.id));
}

#[test]
fn delete_returns_pre_deletion_record() {
    let (mut store, uid) = store_with_user("u");
    let todo = create_new_todo(uid, NewTodoReq { text: String::from("bye") }, &mut store)
        .expect("create failed");
    let id = todo.id;
    let removed = delete_existing_todo(todo, &mut store).expect("delete failed");
    assert_eq!(removed.id, id);
    assert_eq!(removed.text, "bye");
    assert!(store.find_todo_by_id(id).is_none());
    assert!(get_all_todos(uid, &store).unwrap().is_empty());
}

#[test]
fn create_for_unknown_owner_is_a_store_fault() {
    let mut store = Store::new();
    let err = create_new_todo(42, NewTodoReq { text: String::from("x") }, &mut store)
        .expect_err("create should fail");
    assert_eq!(err, TodosError::DieselCrudError);
}

#[test]
fn update_of_missing_record_is_a_store_fault() {
    let (mut store, uid) = store_with_user("u");
    let todo = create_new_todo(uid, NewTodoReq { text: String::from("x") }, &mut store)
        .expect("create failed");
    let ghost_record = delete_existing_todo(todo, &mut store).expect("delete failed");
    let err = update_existing_todo(ghost_record, UpdateTodo::DoneOnly { done: true }, &mut store)
        .expect_err("update should fail");
    assert_eq!(err, TodosError::DieselCrudError);
}

#[test]
fn duplicate_username_is_a_store_fault() {
    let mut store = Store::new();
    register_user(
        NewUser { username: String::from("dup"), password: String::from("a") },
        &mut store,
        SECRET,
        1_000,
    )
    .expect("register failed");
    let err = register_user(
        NewUser { username: String::from("dup"), password: String::from("b") },
        &mut store,
        SECRET,
        1_000,
    )
    .expect_err("second register should fail");
    assert_eq!(err, TodosError::DieselCrudError);
}

#[test]
fn identity_from_header_accepts_a_fresh_token() {
    let token = issue_token(3, "carol", SECRET, 1_000);
    let header = token.into_bytes();
    let user = AuthUser::from_header(Some(&header), SECRET, 1_000).expect("extraction failed");
    assert_eq!(user.id, 3);
    assert_eq!(user.username, "carol");
}

#[test]
fn identity_failures_name_their_header_state() {
    let missing = AuthUser::from_header(None, SECRET, 1_000).expect_err("should fail");
    assert_eq!(missing, AuthError::HeaderMissing);
    assert_eq!(missing.message(), "Auth header not present.");

    let bytes: Vec<u8> = vec![0xFF, 0x10, 0x41];
    let malformed = AuthUser::from_header(Some(&bytes), SECRET, 1_000).expect_err("should fail");
    assert_eq!(malformed, AuthError::HeaderMalformed);
    assert_eq!(
        malformed.message(),
        "Auth header is malformed or contains non-ASCII characters."
    );

    let garbage: Vec<u8> = b"not-a-token".to_vec();
    let rejected = AuthUser::from_header(Some(&garbage), SECRET, 1_000).expect_err("should fail");
    assert_eq!(rejected, AuthError::TokenRejected);
    assert_eq!(rejected.message(), "Token is invalid or expired.");

    let stale = issue_token(3, "carol", SECRET, 1_000).into_bytes();
    let expired = AuthUser::from_header(Some(&stale), SECRET, 9_000).expect_err("should fail");
    assert_eq!(expired, AuthError::TokenRejected);
}

#[test]
fn create_jwt_uses_the_clock_and_authorize_accepts() {
    let token = create_jwt(5, String::from("bob"), SECRET).expect("create_jwt failed");
    let claims = authorize(&token, SECRET, now_secs()).expect("authorize failed");
    assert_eq!(claims.id, 5);
    assert_eq!(claims.username, "bob");
}

#[test]
fn authorize_folds_rejections_into_one_kind() {
    let token = issue_token(5, "bob", SECRET, 1_000);
    let expired = authorize(&token, SECRET, 9_000).expect_err("should fail");
    let mangled = authorize("a.b.c", SECRET, 1_000).expect_err("should fail");
    assert_eq!(expired, TodosError::JwtTokenDecodeError);
    assert_eq!(expired, mangled);
}

#[test]
fn issuance_past_the_last_representable_time_fails() {
    let mut store = Store::new();
    let err = register_user(
        NewUser { username: String::from("late"), password: String::from("p") },
        &mut store,
        SECRET,
        u64::MAX,
    )
    .expect_err("register should fail");
    assert_eq!(err, TodosError::JwtTokenCreationError);

    let err = login_user(
        LoginBody { username: String::from("late"), password: String::from("p") },
        &store,
        SECRET,
        u64::MAX,
    )
    .expect_err("login should fail");
    assert_eq!(err, TodosError::JwtTokenCreationError);
}

#[test]
fn full_request_chain_authenticates_and_guards() {
    let mut store = Store::new();
    let resp = register_user(
        NewUser { username: String::from("dora"), password: String::from("pw") },
        &mut store,
        SECRET,
        1_000,
    )
    .expect("register failed");

    let header: Vec<u8> = resp.token.into_bytes();
    let user = AuthUser::from_header(Some(&header), SECRET, 1_500).expect("extraction failed");
    assert_eq!(user.id, resp.id);
    assert_eq!(user.username, "dora");

    let todo = create_new_todo(user.id, NewTodoReq { text: String::from("walk") }, &mut store)
        .expect("create failed");
    let guarded = TodoIsOfUser::check(&user, todo.id, &store)
        .result
        .expect("owner should pass the guard");
    let updated = update_existing_todo(guarded, UpdateTodo::DoneOnly { done: true }, &mut store)
        .expect("update failed");
    assert!(updated.done);
    assert_eq!(updated.text, "walk");
}

#[test]
fn error_messages_are_stable() {
    assert_eq!(TodosError::TodoNotFoundError.message(), "todo not found");
    assert_eq!(TodosError::DieselCrudError.message(), "database operations failed");
    assert_eq!(TodosError::JwtTokenCreationError.message(), "JWT token creation failed");
    assert_eq!(TodosError::JwtTokenDecodeError.message(), "JWT token decoding failed");
    assert_eq!(TodosError::BadCreds.message(), "bad credentials");
}
