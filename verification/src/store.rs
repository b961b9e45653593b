//! Credential Store and Todo Repository: the relational state of the service
//! and its ownership-scoped operations.
//!
//! Every todo operation is scoped to the caller's identity; no operation
//! accepts a client-supplied owner. A missing row and an ownership mismatch
//! are indistinguishable to callers, a deliberate anti-enumeration policy.

use vstd::prelude::*;

use crate::errors::StoreError;
use crate::models::{Todo, TodoQueryParams, UpdateTodo, User};
use crate::text::{contains_sub, lower_of, lowercase, str_contains};

verus! {

/// No two users share an id.
pub open spec fn unique_user_ids(users: Seq<User>) -> bool {
    forall|i: int, j: int|
        0 <= i < users.len() && 0 <= j < users.len() && i != j ==> (#[trigger] users[i].id) != (
        #[trigger] users[j].id)
}

/// No two users share a username.
pub open spec fn unique_usernames(users: Seq<User>) -> bool {
    forall|i: int, j: int|
        0 <= i < users.len() && 0 <= j < users.len() && i != j ==> (#[trigger] users[i].username)@
            != (#[trigger] users[j].username)@
}

/// No two todos share an id.
pub open spec fn unique_todo_ids(todos: Seq<Todo>) -> bool {
    forall|i: int, j: int|
        0 <= i < todos.len() && 0 <= j < todos.len() && i != j ==> (#[trigger] todos[i].id) != (
        #[trigger] todos[j].id)
}

/// Some user carries this username.
pub open spec fn has_username(users: Seq<User>, name: Seq<char>) -> bool {
    exists|i: int| 0 <= i < users.len() && (#[trigger] users[i].username)@ == name
}

/// The user carrying `name`; meaningful only under `has_username`, and unique
/// under `unique_usernames`.
pub open spec fn user_named(users: Seq<User>, name: Seq<char>) -> User {
    users[choose|i: int| 0 <= i < users.len() && (#[trigger] users[i].username)@ == name]
}

/// Some user has this id.
pub open spec fn has_user_id(users: Seq<User>, uid: int) -> bool {
    exists|i: int| 0 <= i < users.len() && (#[trigger] users[i].id) as int == uid
}

/// The user named `name` exists and is the owner keyed by `uid`.
pub open spec fn owns(users: Seq<User>, name: Seq<char>, uid: int) -> bool {
    exists|i: int|
        #![auto]
        0 <= i < users.len() && users[i].id as int == uid && users[i].username@ == name
}

/// A todo passes a list request by `name` with the given filters: it is owned
/// by `name`, matches the completion filter when one is present, and its
/// lowercased title contains the lowercased search text when one is present.
/// Filters compose conjunctively; an absent filter imposes no constraint.
pub open spec fn matches_query(
    users: Seq<User>,
    name: Seq<char>,
    completed: Option<bool>,
    search: Option<Seq<char>>,
    t: Todo,
) -> bool {
    &&& owns(users, name, t.user_id as int)
    &&& (match completed {
        Some(c) => t.completed == c,
        None => true,
    })
    &&& (match search {
        Some(q) => contains_sub(lower_of(t.title@), lower_of(q)),
        None => true,
    })
}

/// The exact sequence a list request returns: the stored todos that pass the
/// request, in store order.
pub open spec fn list_spec(
    users: Seq<User>,
    name: Seq<char>,
    completed: Option<bool>,
    search: Option<Seq<char>>,
    todos: Seq<Todo>,
) -> Seq<Todo> {
    todos.filter(|t: Todo| matches_query(users, name, completed, search, t))
}

/// The view of an optional search text.
pub open spec fn search_view(search: Option<String>) -> Option<Seq<char>> {
    match search {
        Some(q) => Some(q@),
        None => None,
    }
}

/// A todo after a partial update: fields the patch leaves `None` keep their
/// stored value.
pub open spec fn patched(t: Todo, p: UpdateTodo) -> Todo {
    Todo {
        id: t.id,
        title: match p.title {
            Some(s) => s,
            None => t.title,
        },
        completed: match p.completed {
            Some(c) => c,
            None => t.completed,
        },
        user_id: t.user_id,
    }
}

/// An explicit deep copy of a user, specified field by field.
pub fn clone_user(u: &User) -> (r: User)
    ensures
        r == *u,
{
    User { id: u.id, username: u.username.clone(), password: u.password.clone() }
}

/// An explicit deep copy of a todo, specified field by field.
pub fn clone_todo(t: &Todo) -> (r: Todo)
    ensures
        r == *t,
{
    Todo { id: t.id, title: t.title.clone(), completed: t.completed, user_id: t.user_id }
}

/// The relational state: user rows and todo rows, with the next generated id
/// for each.
pub struct Store {
    pub users: Vec<User>,
    pub todos: Vec<Todo>,
    pub next_user_id: i32,
    pub next_todo_id: i32,
}

impl Store {
    /// The store invariant: ids and usernames are unique, generated ids stay
    /// below the next free one, and every todo's owner is an existing user.
    pub open spec fn wf(self) -> bool {
        &&& unique_user_ids(self.users@)
        &&& unique_usernames(self.users@)
        &&& unique_todo_ids(self.todos@)
        &&& 0 < self.next_user_id
        &&& 0 < self.next_todo_id
        &&& forall|i: int|
            0 <= i < self.users@.len() ==> 0 < (#[trigger] self.users@[i].id) < self.next_user_id
        &&& forall|i: int|
            0 <= i < self.todos@.len() ==> 0 < (#[trigger] self.todos@[i].id) < self.next_todo_id
        &&& forall|i: int|
            0 <= i < self.todos@.len() ==> has_user_id(
                self.users@,
                (#[trigger] self.todos@[i].user_id) as int,
            )
    }

    /// An empty store.
    pub fn new() -> (s: Store)
        ensures
            s.wf(),
            s.users@ == Seq::<User>::empty(),
            s.todos@ == Seq::<Todo>::empty(),
            s.next_user_id == 1,
            s.next_todo_id == 1,
    {
        let s = Store { users: Vec::new(), todos: Vec::new(), next_user_id: 1, next_todo_id: 1 };
        proof {
            assert(s.users@ =~= Seq::<User>::empty());
            assert(s.todos@ =~= Seq::<Todo>::empty());
        }
        s
    }

    /// The index of the user carrying `username`, if any.
    fn find_user_index(&self, username: &String) -> (r: Option<usize>)
        ensures
            r matches Some(j) ==> j < self.users@.len() && self.users@[j as int].username@
                == username@,
            r is Some <==> has_username(self.users@, username@),
    {
        let mut j: usize = 0;
        while j < self.users.len()
            invariant
                j <= self.users@.len(),
                forall|k: int| 0 <= k < j ==> (#[trigger] self.users@[k].username)@ != username@,
            decreases self.users@.len() - j,
        {
            if self.users[j].username == *username {
                return Some(j);
            }
            j += 1;
        }
        None
    }

    /// Looks a user up by username.
    pub fn find_by_username(&self, username: &String) -> (r: Option<User>)
        requires
            self.wf(),
        ensures
            r is Some <==> has_username(self.users@, username@),
            r matches Some(u) ==> u == user_named(self.users@, username@) && u.username@
                == username@ && self.users@.contains(u),
    {
        match self.find_user_index(username) {
            Some(j) => {
                let u = clone_user(&self.users[j]);
                proof {
                    let c = choose|i: int|
                        0 <= i < self.users@.len() && (#[trigger] self.users@[i].username)@
                            == username@;
                    assert(c == j);
                    assert(self.users@.contains(self.users@[j as int]));
                }
                Some(u)
            },
            None => None,
        }
    }

    /// Registers a new user under an already-hashed password. Fails exactly
    /// when the username is taken, leaving the store unchanged.
    pub fn register(&mut self, username: &String, password_hash: &String) -> (r: Result<
        User,
        StoreError,
    >)
        requires
            old(self).wf(),
            old(self).next_user_id < i32::MAX,
        ensures
            final(self).wf(),
            r is Err <==> has_username(old(self).users@, username@),
            r is Err ==> *final(self) == *old(self) && r == Err::<User, StoreError>(
                StoreError::DuplicateUsername,
            ),
            r matches Ok(u) ==> ({
                &&& u.id == old(self).next_user_id
                &&& u.username@ == username@
                &&& u.password@ == password_hash@
                &&& final(self).users@ == old(self).users@.push(u)
                &&& final(self).todos@ == old(self).todos@
                &&& final(self).next_user_id == old(self).next_user_id + 1
                &&& final(self).next_todo_id == old(self).next_todo_id
            }),
    {
        match self.find_user_index(username) {
            Some(_) => Err(StoreError::DuplicateUsername),
            None => {
                let user = User {
                    id: self.next_user_id,
                    username: username.clone(),
                    password: password_hash.clone(),
                };
                let result = clone_user(&user);
                self.users.push(user);
                self.next_user_id = self.next_user_id + 1;
                proof {
                    let us = old(self).users@;
                    assert forall|i: int|
                        0 <= i < self.todos@.len() implies has_user_id(
                        self.users@,
                        (#[trigger] self.todos@[i].user_id) as int,
                    ) by {
                        let w = choose|w: int|
                            0 <= w < us.len() && (#[trigger] us[w].id) as int
                                == self.todos@[i].user_id as int;
                        assert(self.users@[w].id as int == self.todos@[i].user_id as int);
                    }
                }
                Ok(result)
            },
        }
    }

    /// Creates a todo owned by the resolved identity. Fails exactly when the
    /// identity no longer resolves to a user, leaving the store unchanged.
    pub fn create_todo(&mut self, owner: &String, title: &String, completed: bool) -> (r: Result<
        Todo,
        StoreError,
    >)
        requires
            old(self).wf(),
            old(self).next_todo_id < i32::MAX,
        ensures
            final(self).wf(),
            r is Err <==> !has_username(old(self).users@, owner@),
            r is Err ==> *final(self) == *old(self) && r == Err::<Todo, StoreError>(
                StoreError::OwnerNotFound,
            ),
            r matches Ok(t) ==> ({
                &&& t.id == old(self).next_todo_id
                &&& t.title@ == title@
                &&& t.completed == completed
                &&& owns(old(self).users@, owner@, t.user_id as int)
                &&& final(self).todos@ == old(self).todos@.push(t)
                &&& final(self).users@ == old(self).users@
                &&& final(self).next_user_id == old(self).next_user_id
                &&& final(self).next_todo_id == old(self).next_todo_id + 1
            }),
    {
        match self.find_user_index(owner) {
            None => Err(StoreError::OwnerNotFound),
            Some(j) => {
                let uid = self.users[j].id;
                let todo = Todo {
                    id: self.next_todo_id,
                    title: title.clone(),
                    completed,
                    user_id: uid,
                };
                let result = clone_todo(&todo);
                self.todos.push(todo);
                self.next_todo_id = self.next_todo_id + 1;
                proof {
                    let ts = old(self).todos@;
                    assert(owns(old(self).users@, owner@, result.user_id as int));
                    assert forall|i: int|
                        0 <= i < self.todos@.len() implies has_user_id(
                        self.users@,
                        (#[trigger] self.todos@[i].user_id) as int,
                    ) by {
                        if i < ts.len() {
                            assert(has_user_id(self.users@, ts[i].user_id as int));
                        } else {
                            assert(self.users@[j as int].id as int == self.todos@[i].user_id as int);
                        }
                    }
                }
                Ok(result)
            },
        }
    }

    /// Fetches the todo with this id if it exists and the caller owns it; a
    /// missing id and a foreign owner both yield `None`.
    pub fn get_todo(&self, owner: &String, id: i32) -> (r: Option<Todo>)
        requires
            self.wf(),
        ensures
            r is Some <==> exists|j: int|
                0 <= j < self.todos@.len() && (#[trigger] self.todos@[j]).id == id && owns(
                    self.users@,
                    owner@,
                    self.todos@[j].user_id as int,
                ),
            r matches Some(t) ==> t.id == id && self.todos@.contains(t) && owns(
                self.users@,
                owner@,
                t.user_id as int,
            ),
    {
        let uj = match self.find_user_index(owner) {
            Some(j) => j,
            None => {
                proof {
                    lemma_owns_implies_has_username(self.users@, owner@);
                }
                return None;
            },
        };
        let uid = self.users[uj].id;
        let mut k: usize = 0;
        while k < self.todos.len()
            invariant
                self.wf(),
                k <= self.todos@.len(),
                uj < self.users@.len(),
                self.users@[uj as int].username@ == owner@,
                uid == self.users@[uj as int].id,
                forall|j: int|
                    0 <= j < k ==> !((#[trigger] self.todos@[j]).id == id && owns(
                        self.users@,
                        owner@,
                        self.todos@[j].user_id as int,
                    )),
            decreases self.todos@.len() - k,
        {
            if self.todos[k].id == id && self.todos[k].user_id == uid {
                let t = clone_todo(&self.todos[k]);
                proof {
                    assert(owns(self.users@, owner@, t.user_id as int));
                    assert(self.todos@.contains(self.todos@[k as int]));
                }
                return Some(t);
            }
            proof {
                lemma_owned_means_uid(self.users@, owner@, uj as int, self.todos@[k as int]);
            }
            k += 1;
        }
        None
    }

    /// Applies a partial update to the todo with this id if the caller owns
    /// it; fields the patch leaves unset keep their stored value. A missing
    /// id and a foreign owner both yield `None` and leave the store
    /// unchanged.
    pub fn update_todo(&mut self, owner: &String, id: i32, patch: UpdateTodo) -> (r: Option<Todo>)
        requires
            old(self).wf(),
        ensures
            final(self).wf(),
            final(self).users@ == old(self).users@,
            final(self).next_user_id == old(self).next_user_id,
            final(self).next_todo_id == old(self).next_todo_id,
            r is Some <==> exists|j: int|
                0 <= j < old(self).todos@.len() && (#[trigger] old(self).todos@[j]).id == id
                    && owns(old(self).users@, owner@, old(self).todos@[j].user_id as int),
            r matches Some(t) ==> exists|j: int|
                0 <= j < old(self).todos@.len() && (#[trigger] old(self).todos@[j]).id == id
                    && owns(old(self).users@, owner@, old(self).todos@[j].user_id as int) && t
                    == patched(old(self).todos@[j], patch) && final(self).todos@ == old(
                    self,
                ).todos@.update(j, t),
            r is None ==> final(self).todos@ == old(self).todos@,
    {
        let uj = match self.find_user_index(owner) {
            Some(j) => j,
            None => {
                proof {
                    lemma_owns_implies_has_username(self.users@, owner@);
                }
                return None;
            },
        };
        let uid = self.users[uj].id;
        let mut k: usize = 0;
        while k < self.todos.len()
            invariant
                self == old(self),
                self.wf(),
                k <= self.todos@.len(),
                uj < self.users@.len(),
                self.users@[uj as int].username@ == owner@,
                uid == self.users@[uj as int].id,
                forall|j: int|
                    0 <= j < k ==> !((#[trigger] self.todos@[j]).id == id && owns(
                        self.users@,
                        owner@,
                        self.todos@[j].user_id as int,
                    )),
            decreases self.todos@.len() - k,
        {
            if self.todos[k].id == id {
                if self.todos[k].user_id == uid {
                    let new_title: String = match patch.title {
                        Some(s) => s,
                        None => self.todos[k].title.clone(),
                    };
                    let new_completed: bool = match patch.completed {
                        Some(c) => c,
                        None => self.todos[k].completed,
                    };
                    let nt = Todo {
                        id: self.todos[k].id,
                        title: new_title,
                        completed: new_completed,
                        user_id: self.todos[k].user_id,
                    };
                    let result = clone_todo(&nt);
                    let ghost prev = self.todos@;
                    self.todos.remove(k);
                    self.todos.insert(k, nt);
                    proof {
                        assert(self.todos@ =~= prev.update(k as int, nt));
                        assert(owns(self.users@, owner@, nt.user_id as int));
                        assert forall|i: int|
                            0 <= i < self.todos@.len() implies has_user_id(
                            self.users@,
                            (#[trigger] self.todos@[i].user_id) as int,
                        ) by {
                            assert(self.todos@[i].user_id == prev[i].user_id);
                            assert(has_user_id(self.users@, prev[i].user_id as int));
                        }
                        assert forall|i: int, j: int|
                            0 <= i < self.todos@.len() && 0 <= j < self.todos@.len() && i
                                != j implies (#[trigger] self.todos@[i].id) != (
                        #[trigger] self.todos@[j].id) by {
                            assert(self.todos@[i].id == prev[i].id);
                            assert(self.todos@[j].id == prev[j].id);
                        }
                    }
                    return Some(result);
                } else {
                    proof {
                        lemma_owned_means_uid(self.users@, owner@, uj as int, self.todos@[k as int]);
                        assert forall|j: int|
                            0 <= j < self.todos@.len() implies !((#[trigger] self.todos@[j]).id
                            == id && owns(self.users@, owner@, self.todos@[j].user_id as int)) by {
                            if self.todos@[j].id == id {
                                assert(j == k);
                            }
                        }
                    }
                    return None;
                }
            }
            proof {
                lemma_owned_means_uid(self.users@, owner@, uj as int, self.todos@[k as int]);
            }
            k += 1;
        }
        None
    }

    /// Deletes the todo with this id if the caller owns it; a missing id and
    /// a foreign owner both yield `false` and leave the store unchanged.
    pub fn delete_todo(&mut self, owner: &String, id: i32) -> (r: bool)
        requires
            old(self).wf(),
        ensures
            final(self).wf(),
            final(self).users@ == old(self).users@,
            final(self).next_user_id == old(self).next_user_id,
            final(self).next_todo_id == old(self).next_todo_id,
            r <==> exists|j: int|
                0 <= j < old(self).todos@.len() && (#[trigger] old(self).todos@[j]).id == id
                    && owns(old(self).users@, owner@, old(self).todos@[j].user_id as int),
            r ==> exists|j: int|
                0 <= j < old(self).todos@.len() && (#[trigger] old(self).todos@[j]).id == id
                    && owns(old(self).users@, owner@, old(self).todos@[j].user_id as int)
                    && final(self).todos@ == old(self).todos@.remove(j),
            !r ==> final(self).todos@ == old(self).todos@,
    {
        let uj = match self.find_user_index(owner) {
            Some(j) => j,
            None => {
                proof {
                    lemma_owns_implies_has_username(self.users@, owner@);
                }
                return false;
            },
        };
        let uid = self.users[uj].id;
        let mut k: usize = 0;
        while k < self.todos.len()
            invariant
                self == old(self),
                self.wf(),
                k <= self.todos@.len(),
                uj < self.users@.len(),
                self.users@[uj as int].username@ == owner@,
                uid == self.users@[uj as int].id,
                forall|j: int|
                    0 <= j < k ==> !((#[trigger] self.todos@[j]).id == id && owns(
                        self.users@,
                        owner@,
                        self.todos@[j].user_id as int,
                    )),
            decreases self.todos@.len() - k,
        {
            if self.todos[k].id == id {
                if self.todos[k].user_id == uid {
                    let ghost prev = self.todos@;
                    self.todos.remove(k);
                    proof {
                        assert(owns(self.users@, owner@, prev[k as int].user_id as int));
                        assert forall|i: int|
                            0 <= i < self.todos@.len() implies has_user_id(
                            self.users@,
                            (#[trigger] self.todos@[i].user_id) as int,
                        ) by {
                            if i < k {
                                assert(self.todos@[i] == prev[i]);
                                assert(has_user_id(self.users@, prev[i].user_id as int));
                            } else {
                                assert(self.todos@[i] == prev[i + 1]);
                                assert(has_user_id(self.users@, prev[i + 1].user_id as int));
                            }
                        }
                        assert forall|i: int, j: int|
                            0 <= i < self.todos@.len() && 0 <= j < self.todos@.len() && i
                                != j implies (#[trigger] self.todos@[i].id) != (
                        #[trigger] self.todos@[j].id) by {
                            let pi: int = if i < k { i } else { i + 1 };
                            let pj: int = if j < k { j } else { j + 1 };
                            assert(self.todos@[i].id == prev[pi].id);
                            assert(self.todos@[j].id == prev[pj].id);
                        }
                        assert forall|i: int|
                            0 <= i < self.todos@.len() implies 0 < (#[trigger] self.todos@[i].id)
                            < self.next_todo_id by {
                            let pi: int = if i < k { i } else { i + 1 };
                            assert(self.todos@[i].id == prev[pi].id);
                        }
                    }
                    return true;
                } else {
                    proof {
                        lemma_owned_means_uid(self.users@, owner@, uj as int, self.todos@[k as int]);
                        assert forall|j: int|
                            0 <= j < self.todos@.len() implies !((#[trigger] self.todos@[j]).id
                            == id && owns(self.users@, owner@, self.todos@[j].user_id as int)) by {
                            if self.todos@[j].id == id {
                                assert(j == k);
                            }
                        }
                    }
                    return false;
                }
            }
            proof {
                lemma_owned_means_uid(self.users@, owner@, uj as int, self.todos@[k as int]);
            }
            k += 1;
        }
        false
    }

    /// Lists exactly the caller's todos that pass the filters, in store
    /// order: the completion filter and the case-insensitive title search
    /// compose conjunctively, and an absent filter imposes no constraint.
    pub fn list_todos(&self, owner: &String, params: &TodoQueryParams) -> (r: Vec<Todo>)
        requires
            self.wf(),
        ensures
            r@ == list_spec(
                self.users@,
                owner@,
                params.completed,
                search_view(params.search),
                self.todos@,
            ),
    {
        let ghost pred = |t: Todo|
            matches_query(
                self.users@,
                owner@,
                params.completed,
                search_view(params.search),
                t,
            );
        let uid_opt: Option<i32> = match self.find_user_index(owner) {
            Some(j) => Some(self.users[j].id),
            None => None,
        };
        let ghost uj = choose|i: int|
            0 <= i < self.users@.len() && (#[trigger] self.users@[i].username)@ == owner@;
        let lower_q: Option<String> = match &params.search {
            Some(q) => Some(lowercase(q)),
            None => None,
        };
        let mut out: Vec<Todo> = Vec::new();
        let mut k: usize = 0;
        proof {
            reveal(Seq::filter);
            assert(self.todos@.take(0).filter(pred) =~= Seq::<Todo>::empty());
        }
        while k < self.todos.len()
            invariant
                self.wf(),
                k <= self.todos@.len(),
                pred == (|t: Todo|
                    matches_query(
                        self.users@,
                        owner@,
                        params.completed,
                        search_view(params.search),
                        t,
                    )),
                uid_opt is Some <==> has_username(self.users@, owner@),
                uid_opt matches Some(uid) ==> 0 <= uj < self.users@.len()
                    && self.users@[uj].username@ == owner@ && uid == self.users@[uj].id,
                lower_q is Some <==> params.search is Some,
                lower_q matches Some(lq) ==> params.search matches Some(q) && lq@ == lower_of(q@),
                out@ == self.todos@.take(k as int).filter(pred),
            decreases self.todos@.len() - k,
        {
            let t = &self.todos[k];
            let owner_ok: bool = match uid_opt {
                Some(uid) => t.user_id == uid,
                None => false,
            };
            let completed_ok: bool = match params.completed {
                Some(c) => t.completed == c,
                None => true,
            };
            let search_ok: bool = match &lower_q {
                Some(lq) => {
                    let lt = lowercase(&t.title);
                    str_contains(&lt, lq)
                },
                None => true,
            };
            proof {
                if owner_ok {
                    assert(owns(self.users@, owner@, t.user_id as int));
                }
                if owns(self.users@, owner@, t.user_id as int) {
                    lemma_owns_implies_has_username(self.users@, owner@);
                    lemma_owned_means_uid(self.users@, owner@, uj, *t);
                }
                assert((owner_ok && completed_ok && search_ok) == pred(*t));
            }
            if owner_ok && completed_ok && search_ok {
                let c = clone_todo(t);
                out.push(c);
            }
            proof {
                reveal(Seq::filter);
                let taken = self.todos@.take(k + 1);
                assert(taken.drop_last() =~= self.todos@.take(k as int));
                assert(taken.last() == self.todos@[k as int]);
            }
            k += 1;
        }
        proof {
            assert(self.todos@.take(self.todos@.len() as int) =~= self.todos@);
        }
        out
    }
}

/// An owned row's owner exists.
proof fn lemma_owns_implies_has_username(users: Seq<User>, name: Seq<char>)
    ensures
        forall|uid: int| #[trigger] owns(users, name, uid) ==> has_username(users, name),
{
    assert forall|uid: int| #[trigger] owns(users, name, uid) implies has_username(
        users,
        name,
    ) by {
        let i = choose|i: int|
            #![auto]
            0 <= i < users.len() && users[i].id as int == uid && users[i].username@ == name;
        assert((users[i].username)@ == name);
    }
}

/// Under unique usernames, a row is owned by `name` exactly when its key is
/// the id of the one user carrying `name`.
proof fn lemma_owned_means_uid(users: Seq<User>, name: Seq<char>, uj: int, t: Todo)
    requires
        unique_usernames(users),
        0 <= uj < users.len(),
        users[uj].username@ == name,
    ensures
        owns(users, name, t.user_id as int) <==> t.user_id as int == users[uj].id as int,
{
    if owns(users, name, t.user_id as int) {
        let i = choose|i: int|
            #![auto]
            0 <= i < users.len() && users[i].id as int == t.user_id as int && users[i].username@
                == name;
        assert(i == uj);
    }
    if t.user_id as int == users[uj].id as int {
        assert(owns(users, name, t.user_id as int)) by {
            assert(0 <= uj < users.len() && users[uj].id as int == t.user_id as int
                && users[uj].username@ == name);
        }
    }
}

/// Law (ownership isolation): under the store invariant no row has two
/// owners, so by the contracts of `get_todo`, `update_todo`, `delete_todo`,
/// and `list_todos`, a todo created by one user is never returned, updated,
/// or deleted through another user's identity.
pub proof fn lemma_owner_exclusive(users: Seq<User>, a: Seq<char>, b: Seq<char>, uid: int)
    requires
        unique_user_ids(users),
        unique_usernames(users),
        a != b,
        owns(users, a, uid),
    ensures
        !owns(users, b, uid),
{
    if owns(users, b, uid) {
        let i = choose|i: int|
            #![auto]
            0 <= i < users.len() && users[i].id as int == uid && users[i].username@ == a;
        let j = choose|j: int|
            #![auto]
            0 <= j < users.len() && users[j].id as int == uid && users[j].username@ == b;
        assert(users[i].id == users[j].id);
        assert(i == j);
        assert(false);
    }
}

/// Law (empty patch): a partial update whose fields are all unset yields the
/// stored todo unchanged.
pub proof fn lemma_empty_patch(t: Todo, p: UpdateTodo)
    requires
        p.title is None,
        p.completed is None,
    ensures
        patched(t, p) == t,
{
}

/// Law (duplicate registration): once a registration has appended a user, the
/// username is taken, so by the contract of `register` a second registration
/// under the same username fails and leaves the store — the first user
/// included — unchanged.
pub proof fn lemma_register_taken(users: Seq<User>, u: User, name: Seq<char>)
    requires
        u.username@ == name,
    ensures
        has_username(users.push(u), name),
{
    assert((users.push(u)[users.len() as int].username)@ == name);
}

} // verus!
