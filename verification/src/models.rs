//! The data model: users, todos, the request shapes that create them,
//! and the tagged partial-update request.

use vstd::prelude::*;

verus! {

/// A task record. `user_id` names the owner; a todo is only ever
/// visible or mutable through a request whose authenticated identity
/// equals that owner.
#[derive(Debug)]
pub struct Todo {
    pub id: i32,
    pub text: String,
    pub done: bool,
    pub user_id: i32,
}

impl Todo {
    /// Field-by-field copy of the record.
    pub fn duplicate(&self) -> (r: Todo)
        ensures
            r == *self,
    {
        Todo { id: self.id, text: self.text.clone(), done: self.done, user_id: self.user_id }
    }
}

/// The request body that creates a todo: its text alone.
#[derive(Debug)]
pub struct NewTodoReq {
    pub text: String,
}

/// A todo as handed to the store for insertion: text plus owner.
#[derive(Debug)]
pub struct NewTodo {
    pub text: String,
    pub user_id: i32,
}

/// The partial-update request: exactly one of three shapes. The update
/// action dispatches on the tag and writes exactly the named fields.
#[derive(Debug)]
pub enum UpdateTodo {
    TextOnly { text: String },
    DoneOnly { done: bool },
    Both { text: String, done: bool },
}

/// A registered account. `password` holds the salted hash, never the
/// plaintext.
#[derive(Debug)]
pub struct User {
    pub id: i32,
    pub username: String,
    pub password: String,
}

impl User {
    /// Field-by-field copy of the record.
    pub fn duplicate(&self) -> (r: User)
        ensures
            r == *self,
    {
        User { id: self.id, username: self.username.clone(), password: self.password.clone() }
    }
}

/// A registration request: username plus plaintext password.
#[derive(Debug)]
pub struct NewUser {
    pub username: String,
    pub password: String,
}

/// What a successful login returns: the identity plus a fresh token.
#[derive(Debug)]
pub struct JwtUser {
    pub token: String,
    pub username: String,
    pub id: i32,
}

} // verus!
