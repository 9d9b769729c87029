//! The persistence collaborator, modelled in memory: two tables with
//! store-assigned unique ids, a unique-username constraint on users,
//! and the referential invariant that every todo's owner exists.

use vstd::prelude::*;

use crate::models::{NewTodo, Todo, UpdateTodo, User};

verus! {

broadcast use vstd::seq_lib::group_filter_ensures, Seq::lemma_filter_push;

/// What a store operation can report: a missing row, or any other
/// store-layer fault collapsed into one kind.
#[derive(Debug, Clone, Copy, PartialEq, Eq, Structural)]
pub enum StoreError {
    NotFound,
    Failure,
}

/// There is a user with this id.
pub open spec fn has_user_id(users: Seq<User>, id: int) -> bool {
    exists|j: int| 0 <= j < users.len() && users[j].id == id
}

/// There is a user with this username.
pub open spec fn has_username(users: Seq<User>, name: Seq<char>) -> bool {
    exists|j: int| 0 <= j < users.len() && users[j].username@ == name
}

/// The position of the user with this username.
pub open spec fn username_index(users: Seq<User>, name: Seq<char>) -> int {
    choose|j: int| 0 <= j < users.len() && users[j].username@ == name
}

/// There is a todo with this id.
pub open spec fn has_todo_id(todos: Seq<Todo>, id: int) -> bool {
    exists|j: int| 0 <= j < todos.len() && todos[j].id == id
}

/// The position of the todo with this id.
pub open spec fn todo_index(todos: Seq<Todo>, id: int) -> int {
    choose|j: int| 0 <= j < todos.len() && todos[j].id == id
}

/// The todos owned by this user, in store order.
pub open spec fn todos_of(todos: Seq<Todo>, owner: int) -> Seq<Todo> {
    todos.filter(|t: Todo| t.user_id == owner)
}

/// Adding a user leaves every existing user id present.
proof fn lemma_push_preserves_user_id(users: Seq<User>, u: User, x: int)
    requires
        has_user_id(users, x),
    ensures
        has_user_id(users.push(u), x),
{
    let j = choose|j: int| 0 <= j < users.len() && users[j].id == x;
    assert(users.push(u)[j].id == x);
}

/// The text a stored record holds after a partial update is applied:
/// a text-bearing shape replaces it, a done-only shape leaves it alone.
pub open spec fn patched_text(old_text: Seq<char>, data: UpdateTodo) -> Seq<char> {
    match data {
        UpdateTodo::TextOnly { text } => text@,
        UpdateTodo::DoneOnly { .. } => old_text,
        UpdateTodo::Both { text, .. } => text@,
    }
}

/// The done flag a stored record holds after a partial update is
/// applied: a done-bearing shape replaces it, a text-only shape leaves
/// it alone.
pub open spec fn patched_done(old_done: bool, data: UpdateTodo) -> bool {
    match data {
        UpdateTodo::TextOnly { .. } => old_done,
        UpdateTodo::DoneOnly { done } => done,
        UpdateTodo::Both { done, .. } => done,
    }
}

/// The in-memory store: the users and todos tables plus the counters
/// from which fresh ids are assigned.
pub struct Store {
    pub users: Vec<User>,
    pub todos: Vec<Todo>,
    pub next_user_id: i32,
    pub next_todo_id: i32,
}

impl Store {
    /// The store's invariant: ids unique and below their counter,
    /// usernames unique, and every todo owned by an existing user.
    pub open spec fn wf(&self) -> bool {
        &&& forall|i: int, j: int|
            #![trigger self.users@[i].id, self.users@[j].id]
            0 <= i < j < self.users@.len() ==> self.users@[i].id != self.users@[j].id
        &&& forall|i: int, j: int|
            #![trigger self.users@[i].username, self.users@[j].username]
            0 <= i < j < self.users@.len() ==> self.users@[i].username@ != self.users@[j].username@
        &&& forall|i: int| 0 <= i < self.users@.len() ==> #[trigger] self.users@[i].id < self.next_user_id
        &&& forall|i: int, j: int|
            #![trigger self.todos@[i].id, self.todos@[j].id]
            0 <= i < j < self.todos@.len() ==> self.todos@[i].id != self.todos@[j].id
        &&& forall|i: int| 0 <= i < self.todos@.len() ==> #[trigger] self.todos@[i].id < self.next_todo_id
        &&& forall|i: int|
            0 <= i < self.todos@.len() ==> has_user_id(self.users@, #[trigger] self.todos@[i].user_id as int)
    }

    /// An empty store.
    pub fn new() -> (r: Store)
        ensures
            r.wf(),
            r.users@.len() == 0,
            r.todos@.len() == 0,
    {
        Store { users: Vec::new(), todos: Vec::new(), next_user_id: 1, next_todo_id: 1 }
    }

    /// Whether a user with this id exists.
    #[verifier::loop_isolation(false)]
    pub fn contains_user_id(&self, id: i32) -> (r: bool)
        ensures
            r == has_user_id(self.users@, id as int),
    {
        let mut i: usize = 0;
        while i < self.users.len()
            invariant
                i <= self.users@.len(),
                forall|j: int| 0 <= j < i ==> #[trigger] self.users@[j].id != id,
            decreases self.users@.len() - i,
        {
            if self.users[i].id == id {
                return true;
            }
            i = i + 1;
        }
        false
    }

    /// Every todo owned by this user, in store order.
    #[verifier::loop_isolation(false)]
    pub fn find_todos_by_owner(&self, owner_id: i32) -> (r: Vec<Todo>)
        ensures
            r@ == todos_of(self.todos@, owner_id as int),
    {
        let mut out: Vec<Todo> = Vec::new();
        let mut i: usize = 0;
        while i < self.todos.len()
            invariant
                i <= self.todos@.len(),
                out@ == todos_of(self.todos@.take(i as int), owner_id as int),
            decreases self.todos@.len() - i,
        {
            proof {
                assert(self.todos@.take(i + 1) =~= self.todos@.take(i as int).push(self.todos@[i as int]));
            }
            if self.todos[i].user_id == owner_id {
                out.push(self.todos[i].duplicate());
            }
            i = i + 1;
        }
        proof {
            assert(self.todos@.take(self.todos@.len() as int) =~= self.todos@);
        }
        out
    }

    /// The todo with this id, if any.
    #[verifier::loop_isolation(false)]
    pub fn find_todo_by_id(&self, id: i32) -> (r: Option<Todo>)
        ensures
            r is Some <==> has_todo_id(self.todos@, id as int),
            r matches Some(t) ==> exists|j: int|
                0 <= j < self.todos@.len() && self.todos@[j] == t && t.id == id,
    {
        let mut i: usize = 0;
        while i < self.todos.len()
            invariant
                i <= self.todos@.len(),
                forall|j: int| 0 <= j < i ==> #[trigger] self.todos@[j].id != id,
            decreases self.todos@.len() - i,
        {
            if self.todos[i].id == id {
                return Some(self.todos[i].duplicate());
            }
            i = i + 1;
        }
        None
    }

    /// The user with this username, if any.
    #[verifier::loop_isolation(false)]
    pub fn find_user_by_username(&self, name: &String) -> (r: Option<User>)
        ensures
            r is Some <==> has_username(self.users@, name@),
            r matches Some(u) ==> exists|j: int|
                0 <= j < self.users@.len() && self.users@[j] == u && u.username@ == name@,
    {
        let mut i: usize = 0;
        while i < self.users.len()
            invariant
                i <= self.users@.len(),
                forall|j: int| 0 <= j < i ==> #[trigger] self.users@[j].username@ != name@,
            decreases self.users@.len() - i,
        {
            if self.users[i].username == *name {
                proof {
                    assert(self.users@[i as int].username@ == name@);
                }
                return Some(self.users[i].duplicate());
            }
            i = i + 1;
        }
        None
    }

    /// Inserts a todo owned by `data.user_id` with `data.text`, not yet
    /// done, under a fresh store-assigned id. Fails when the owner does
    /// not exist (the referential constraint) or when no id is left.
    #[verifier::loop_isolation(false)]
    pub fn insert_todo(&mut self, data: NewTodo) -> (r: Result<Todo, StoreError>)
        requires
            old(self).wf(),
        ensures
            final(self).wf(),
            final(self).users@ == old(self).users@,
            r matches Ok(t) ==> {
                &&& has_user_id(old(self).users@, data.user_id as int)
                &&& t.text@ == data.text@
                &&& !t.done
                &&& t.user_id == data.user_id
                &&& !has_todo_id(old(self).todos@, t.id as int)
                &&& final(self).todos@ == old(self).todos@.push(t)
            },
            r is Err ==> final(self).todos@ == old(self).todos@,
            !has_user_id(old(self).users@, data.user_id as int) ==> r == Err::<Todo, StoreError>(StoreError::Failure),
            has_user_id(old(self).users@, data.user_id as int) && old(self).next_todo_id < i32::MAX
                ==> r is Ok,
    {
        if !self.contains_user_id(data.user_id) {
            return Err(StoreError::Failure);
        }
        if self.next_todo_id == i32::MAX {
            return Err(StoreError::Failure);
        }
        let id = self.next_todo_id;
        let t = Todo { id, text: data.text, done: false, user_id: data.user_id };
        let out = t.duplicate();
        self.todos.push(t);
        self.next_todo_id = id + 1;
        proof {
            assert(forall|i: int| 0 <= i < old(self).todos@.len()
                ==> self.todos@[i] == old(self).todos@[i]);
        }
        Ok(out)
    }

    /// Inserts a user under a fresh store-assigned id. Fails when the
    /// username is already taken (the uniqueness constraint) or when no
    /// id is left.
    #[verifier::loop_isolation(false)]
    pub fn insert_user(&mut self, username: String, password_hash: String) -> (r: Result<User, StoreError>)
        requires
            old(self).wf(),
        ensures
            final(self).wf(),
            final(self).todos@ == old(self).todos@,
            r matches Ok(u) ==> {
                &&& !has_username(old(self).users@, username@)
                &&& u.username@ == username@
                &&& u.password@ == password_hash@
                &&& !has_user_id(old(self).users@, u.id as int)
                &&& final(self).users@ == old(self).users@.push(u)
            },
            r is Err ==> final(self).users@ == old(self).users@,
            has_username(old(self).users@, username@) ==> r == Err::<User, StoreError>(StoreError::Failure),
            !has_username(old(self).users@, username@) && old(self).next_user_id < i32::MAX
                ==> r is Ok,
    {
        if self.find_user_by_username(&username).is_some() {
            return Err(StoreError::Failure);
        }
        if self.next_user_id == i32::MAX {
            return Err(StoreError::Failure);
        }
        let id = self.next_user_id;
        let u = User { id, username, password: password_hash };
        let out = u.duplicate();
        self.users.push(u);
        self.next_user_id = id + 1;
        proof {
            assert forall|i: int| 0 <= i < self.todos@.len()
                implies has_user_id(self.users@, #[trigger] self.todos@[i].user_id as int) by {
                lemma_push_preserves_user_id(
                    old(self).users@,
                    self.users@.last(),
                    self.todos@[i].user_id as int,
                );
                assert(self.users@ =~= old(self).users@.push(self.users@.last()));
            }
        }
        Ok(out)
    }

    /// Applies a partial update to the record with this id and returns
    /// the updated record: the shape's fields are written, every other
    /// field is left untouched. Fails with `NotFound` when no record
    /// has the id.
    #[verifier::loop_isolation(false)]
    pub fn update_todo(&mut self, id: i32, data: &UpdateTodo) -> (r: Result<Todo, StoreError>)
        requires
            old(self).wf(),
        ensures
            final(self).wf(),
            final(self).users@ == old(self).users@,
            !has_todo_id(old(self).todos@, id as int) ==> r == Err::<Todo, StoreError>(StoreError::NotFound)
                && final(self).todos@ == old(self).todos@,
            has_todo_id(old(self).todos@, id as int) ==> {
                let j = todo_index(old(self).todos@, id as int);
                &&& r matches Ok(t)
                &&& t.id == id
                &&& t.user_id == old(self).todos@[j].user_id
                &&& t.text@ == patched_text(old(self).todos@[j].text@, *data)
                &&& t.done == patched_done(old(self).todos@[j].done, *data)
                &&& final(self).todos@ == old(self).todos@.update(j, t)
            },
    {
        let n = self.todos.len();
        let mut i: usize = 0;
        while i < n
            invariant
                *self == *old(self),
                n == self.todos@.len(),
                i <= n,
                forall|j: int| 0 <= j < i ==> #[trigger] self.todos@[j].id != id,
            decreases n - i,
        {
            if self.todos[i].id == id {
                let old_t = &self.todos[i];
                let updated = match data {
                    UpdateTodo::TextOnly { text } => Todo {
                        id,
                        text: text.clone(),
                        done: old_t.done,
                        user_id: old_t.user_id,
                    },
                    UpdateTodo::DoneOnly { done } => Todo {
                        id,
                        text: old_t.text.clone(),
                        done: *done,
                        user_id: old_t.user_id,
                    },
                    UpdateTodo::Both { text, done } => Todo {
                        id,
                        text: text.clone(),
                        done: *done,
                        user_id: old_t.user_id,
                    },
                };
                let out = updated.duplicate();
                proof {
                    let j = todo_index(old(self).todos@, id as int);
                    assert(old(self).todos@[i as int].id == id);
                    assert(0 <= j < old(self).todos@.len() && old(self).todos@[j].id == id);
                    assert(j == i as int);
                }
                self.todos[i] = updated;
                return Ok(out);
            }
            i = i + 1;
        }
        Err(StoreError::NotFound)
    }

    /// Removes the record with this id and returns it as it stood
    /// before deletion. Fails with `NotFound` when no record has the id.
    #[verifier::loop_isolation(false)]
    pub fn delete_todo(&mut self, id: i32) -> (r: Result<Todo, StoreError>)
        requires
            old(self).wf(),
        ensures
            final(self).wf(),
            final(self).users@ == old(self).users@,
            !has_todo_id(old(self).todos@, id as int) ==> r == Err::<Todo, StoreError>(StoreError::NotFound)
                && final(self).todos@ == old(self).todos@,
            has_todo_id(old(self).todos@, id as int) ==> {
                let j = todo_index(old(self).todos@, id as int);
                &&& r matches Ok(t)
                &&& t == old(self).todos@[j]
                &&& final(self).todos@ == old(self).todos@.remove(j)
            },
    {
        let n = self.todos.len();
        let mut i: usize = 0;
        while i < n
            invariant
                *self == *old(self),
                n == self.todos@.len(),
                i <= n,
                forall|j: int| 0 <= j < i ==> #[trigger] self.todos@[j].id != id,
            decreases n - i,
        {
            if self.todos[i].id == id {
                proof {
                    let j = todo_index(old(self).todos@, id as int);
                    assert(old(self).todos@[i as int].id == id);
                    assert(0 <= j < old(self).todos@.len() && old(self).todos@[j].id == id);
                    assert(j == i as int);
                }
                let removed = self.todos.remove(i);
                return Ok(removed);
            }
            i = i + 1;
        }
        Err(StoreError::NotFound)
    }
}

} // verus!
