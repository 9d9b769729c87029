//! The action layer: CRUD on todos under the partial-update contract,
//! plus registration and login. Every action takes the store and the
//! injected token inputs explicitly and reports one error kind.

use vstd::prelude::*;

use crate::auth::{issue_token, token_of, LoginBody, RegisterResponse, TOKEN_VALIDITY_SECS};
use crate::error::TodosError;
use crate::models::{JwtUser, NewTodo, NewTodoReq, Todo, UpdateTodo, NewUser, User};
use crate::password::{hash_password, is_parseable_hash, parseable_hash, password_matches, verify_password};
use crate::store::{
    has_todo_id, has_user_id, has_username, patched_done, patched_text, todo_index, todos_of,
    username_index, Store,
};

verus! {

/// Every todo owned by this user, in store order; the listing itself
/// cannot fail.
pub fn get_all_todos(uid: i32, store: &Store) -> (r: Result<Vec<Todo>, TodosError>)
    ensures
        r matches Ok(v) && v@ == todos_of(store.todos@, uid as int),
{
    Ok(store.find_todos_by_owner(uid))
}

/// Persists a new record owned by `uid` with the requested text, not
/// yet done, under a store-assigned id. A store fault — an owner that
/// does not exist, or no id left — is one `DieselCrudError`.
pub fn create_new_todo(uid: i32, data: NewTodoReq, store: &mut Store) -> (r: Result<Todo, TodosError>)
    requires
        old(store).wf(),
    ensures
        final(store).wf(),
        final(store).users@ == old(store).users@,
        r matches Ok(t) ==> {
            &&& has_user_id(old(store).users@, uid as int)
            &&& t.text@ == data.text@
            &&& !t.done
            &&& t.user_id == uid
            &&& !has_todo_id(old(store).todos@, t.id as int)
            &&& final(store).todos@ == old(store).todos@.push(t)
        },
        r matches Err(e) ==> e == TodosError::DieselCrudError
            && final(store).todos@ == old(store).todos@,
        !has_user_id(old(store).users@, uid as int) ==> r is Err,
        has_user_id(old(store).users@, uid as int) && old(store).next_todo_id < i32::MAX
            ==> r is Ok,
{
    match store.insert_todo(NewTodo { text: data.text, user_id: uid }) {
        Ok(t) => Ok(t),
        Err(_) => Err(TodosError::DieselCrudError),
    }
}

/// Applies a partial update to the stored record with the existing
/// record's id: the shape's fields are written, every other field is
/// left untouched, and the match on the shape is exhaustive. Any store
/// fault is one `DieselCrudError`.
pub fn update_existing_todo(existing: Todo, data: UpdateTodo, store: &mut Store) -> (r: Result<Todo, TodosError>)
    requires
        old(store).wf(),
    ensures
        final(store).wf(),
        final(store).users@ == old(store).users@,
        !has_todo_id(old(store).todos@, existing.id as int)
            ==> r == Err::<Todo, TodosError>(TodosError::DieselCrudError)
                && final(store).todos@ == old(store).todos@,
        has_todo_id(old(store).todos@, existing.id as int) ==> {
            let j = todo_index(old(store).todos@, existing.id as int);
            &&& r matches Ok(t)
            &&& t.id == existing.id
            &&& t.user_id == old(store).todos@[j].user_id
            &&& t.text@ == patched_text(old(store).todos@[j].text@, data)
            &&& t.done == patched_done(old(store).todos@[j].done, data)
            &&& final(store).todos@ == old(store).todos@.update(j, t)
        },
{
    match store.update_todo(existing.id, &data) {
        Ok(t) => Ok(t),
        Err(_) => Err(TodosError::DieselCrudError),
    }
}

/// Removes the stored record with the existing record's id and returns
/// it as it stood before deletion. Any store fault is one
/// `DieselCrudError`.
pub fn delete_existing_todo(existing: Todo, store: &mut Store) -> (r: Result<Todo, TodosError>)
    requires
        old(store).wf(),
    ensures
        final(store).wf(),
        final(store).users@ == old(store).users@,
        !has_todo_id(old(store).todos@, existing.id as int)
            ==> r == Err::<Todo, TodosError>(TodosError::DieselCrudError)
                && final(store).todos@ == old(store).todos@,
        has_todo_id(old(store).todos@, existing.id as int) ==> {
            let j = todo_index(old(store).todos@, existing.id as int);
            &&& r matches Ok(t)
            &&& t == old(store).todos@[j]
            &&& final(store).todos@ == old(store).todos@.remove(j)
        },
{
    match store.delete_todo(existing.id) {
        Ok(t) => Ok(t),
        Err(_) => Err(TodosError::DieselCrudError),
    }
}

/// Hashes the password, persists the user, and issues a token bound to
/// the new identity. A taken username (the uniqueness constraint), an
/// exhausted id space, or a hashing failure is one `DieselCrudError`
/// with the users table unchanged; a `now` past the last representable
/// issuance time, noticed only after the insert, is
/// `JwtTokenCreationError` with the user still persisted (no rollback).
/// On success the stored hash verifies against the registered password
/// and the token is exactly the one signed for the new id and name,
/// expiring `TOKEN_VALIDITY_SECS` after `now`.
pub fn register_user(data: NewUser, store: &mut Store, secret: &[u8], now: u64) -> (r: Result<RegisterResponse, TodosError>)
    requires
        old(store).wf(),
    ensures
        final(store).wf(),
        final(store).todos@ == old(store).todos@,
        has_username(old(store).users@, data.username@)
            ==> r == Err::<RegisterResponse, TodosError>(TodosError::DieselCrudError),
        r == Err::<RegisterResponse, TodosError>(TodosError::DieselCrudError)
            ==> final(store).users@ == old(store).users@,
        r matches Err(e) ==> e == TodosError::DieselCrudError || e == TodosError::JwtTokenCreationError,
        r == Err::<RegisterResponse, TodosError>(TodosError::JwtTokenCreationError) ==> {
            &&& now > u64::MAX - TOKEN_VALIDITY_SECS
            &&& final(store).users@ == old(store).users@.push(final(store).users@.last())
            &&& final(store).users@.last().username@ == data.username@
            &&& password_matches(data.password@, final(store).users@.last().password@)
        },
        r matches Ok(resp) ==> {
            &&& !has_username(old(store).users@, data.username@)
            &&& final(store).users@ == old(store).users@.push(final(store).users@.last())
            &&& final(store).users@.last().id == resp.id
            &&& final(store).users@.last().username@ == data.username@
            &&& password_matches(data.password@, final(store).users@.last().password@)
            &&& !has_user_id(old(store).users@, resp.id as int)
            &&& resp.username@ == data.username@
            &&& resp.token@ == token_of(secret@, data.username@, resp.id, (now + TOKEN_VALIDITY_SECS) as u64)
        },
        r matches Ok(resp) ==> now <= u64::MAX - TOKEN_VALIDITY_SECS,
{
    let hashed = match hash_password(data.password.as_str()) {
        Some(h) => h,
        None => {
            return Err(TodosError::DieselCrudError);
        },
    };
    let user = match store.insert_user(data.username, hashed) {
        Ok(u) => u,
        Err(_) => {
            return Err(TodosError::DieselCrudError);
        },
    };
    if now > u64::MAX - TOKEN_VALIDITY_SECS {
        return Err(TodosError::JwtTokenCreationError);
    }
    let token = issue_token(user.id, user.username.as_str(), secret, now);
    Ok(RegisterResponse { token, id: user.id, username: user.username })
}

/// Looks the user up by username and verifies the password against the
/// stored hash: an unknown username and a wrong password fail with the
/// identical `BadCreds`, deliberately indistinguishable. A matched
/// user's stored hash must be a well-formed PHC string — a malformed
/// one is a fatal configuration error, not an authentication outcome,
/// so it is excluded here (`login_user_checked` screens for it). On a
/// match a token for the stored identity is returned, expiring
/// `TOKEN_VALIDITY_SECS` after `now`; only a `now` past the last
/// representable issuance time still fails, with
/// `JwtTokenCreationError`.
pub fn login_user(data: LoginBody, store: &Store, secret: &[u8], now: u64) -> (r: Result<JwtUser, TodosError>)
    requires
        store.wf(),
        has_username(store.users@, data.username@)
            ==> parseable_hash(store.users@[username_index(store.users@, data.username@)].password@),
    ensures
        !has_username(store.users@, data.username@)
            ==> r == Err::<JwtUser, TodosError>(TodosError::BadCreds),
        has_username(store.users@, data.username@)
            && !password_matches(data.password@, store.users@[username_index(store.users@, data.username@)].password@)
            ==> r == Err::<JwtUser, TodosError>(TodosError::BadCreds),
        has_username(store.users@, data.username@)
            && password_matches(data.password@, store.users@[username_index(store.users@, data.username@)].password@)
            && now > u64::MAX - TOKEN_VALIDITY_SECS
            ==> r == Err::<JwtUser, TodosError>(TodosError::JwtTokenCreationError),
        has_username(store.users@, data.username@)
            && password_matches(data.password@, store.users@[username_index(store.users@, data.username@)].password@)
            && now <= u64::MAX - TOKEN_VALIDITY_SECS
            ==> r is Ok,
        r matches Ok(ju) ==> {
            let u = store.users@[username_index(store.users@, data.username@)];
            &&& has_username(store.users@, data.username@)
            &&& password_matches(data.password@, u.password@)
            &&& ju.id == u.id
            &&& ju.username@ == data.username@
            &&& ju.token@ == token_of(secret@, data.username@, ju.id, (now + TOKEN_VALIDITY_SECS) as u64)
        },
{
    let user = match store.find_user_by_username(&data.username) {
        Some(u) => u,
        None => {
            return Err(TodosError::BadCreds);
        },
    };
    proof {
        let j = choose|j: int|
            0 <= j < store.users@.len() && store.users@[j] == user
                && user.username@ == data.username@;
        let k = username_index(store.users@, data.username@);
        assert(0 <= k < store.users@.len() && store.users@[k].username@ == data.username@);
        assert(j == k);
    }
    if !verify_password(data.password.as_str(), user.password.as_str()) {
        return Err(TodosError::BadCreds);
    }
    if now > u64::MAX - TOKEN_VALIDITY_SECS {
        return Err(TodosError::JwtTokenCreationError);
    }
    let token = issue_token(user.id, data.username.as_str(), secret, now);
    Ok(JwtUser { token, username: data.username, id: user.id })
}

/// Logs in after checking that the matched user's stored hash is a
/// well-formed PHC string, which `login_user` requires: a stored record
/// whose hash does not parse is a fatal configuration error, reported
/// as the store-layer `DieselCrudError` rather than as an
/// authentication outcome.
pub fn login_user_checked(data: LoginBody, store: &Store, secret: &[u8], now: u64) -> (r: Result<JwtUser, TodosError>)
    requires
        store.wf(),
    ensures
        !has_username(store.users@, data.username@)
            ==> r == Err::<JwtUser, TodosError>(TodosError::BadCreds),
        has_username(store.users@, data.username@)
            && !parseable_hash(store.users@[username_index(store.users@, data.username@)].password@)
            ==> r == Err::<JwtUser, TodosError>(TodosError::DieselCrudError),
        has_username(store.users@, data.username@)
            && parseable_hash(store.users@[username_index(store.users@, data.username@)].password@)
            && !password_matches(data.password@, store.users@[username_index(store.users@, data.username@)].password@)
            ==> r == Err::<JwtUser, TodosError>(TodosError::BadCreds),
        has_username(store.users@, data.username@)
            && parseable_hash(store.users@[username_index(store.users@, data.username@)].password@)
            && password_matches(data.password@, store.users@[username_index(store.users@, data.username@)].password@)
            && now <= u64::MAX - TOKEN_VALIDITY_SECS
            ==> r is Ok,
        r matches Ok(ju) ==> {
            let u = store.users@[username_index(store.users@, data.username@)];
            &&& has_username(store.users@, data.username@)
            &&& password_matches(data.password@, u.password@)
            &&& ju.id == u.id
            &&& ju.username@ == data.username@
            &&& ju.token@ == token_of(secret@, data.username@, ju.id, (now + TOKEN_VALIDITY_SECS) as u64)
        },
{
    let user = match store.find_user_by_username(&data.username) {
        Some(u) => u,
        None => {
            return Err(TodosError::BadCreds);
        },
    };
    proof {
        let j = choose|j: int|
            0 <= j < store.users@.len() && store.users@[j] == user
                && user.username@ == data.username@;
        let k = username_index(store.users@, data.username@);
        assert(0 <= k < store.users@.len() && store.users@[k].username@ == data.username@);
        assert(j == k);
    }
    if !is_parseable_hash(user.password.as_str()) {
        return Err(TodosError::DieselCrudError);
    }
    login_user(data, store, secret, now)
}

/// Law: registering a pair and then logging in with the same pair
/// succeeds. A successful registration leaves the users table extended
/// by one user whose name was free beforehand and whose stored hash
/// matches the registered password; the login lookup over that table
/// resolves exactly this user, and the password check against its
/// stored hash passes — so `login_user` on the same pair cannot fail
/// with `BadCreds`, and the token it then signs carries the registered
/// id and username.
pub proof fn lemma_register_then_login(users: Seq<User>, u: User, password: Seq<char>)
    requires
        !has_username(users, u.username@),
        password_matches(password, u.password@),
    ensures
        has_username(users.push(u), u.username@),
        username_index(users.push(u), u.username@) == users.len(),
        users.push(u)[username_index(users.push(u), u.username@)] == u,
        password_matches(
            password,
            users.push(u)[username_index(users.push(u), u.username@)].password@,
        ),
{
    let s2 = users.push(u);
    assert(s2[users.len() as int] == u);
    assert(has_username(s2, u.username@));
    let k = username_index(s2, u.username@);
    assert(0 <= k < s2.len() && s2[k].username@ == u.username@);
    if k < users.len() {
        assert(users[k] == s2[k]);
        assert(has_username(users, u.username@));
    }
    assert(k == users.len());
}

} // verus!
