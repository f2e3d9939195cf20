//! The data core of the reference web service handed to the code-generation
//! prompts as in-context material: an in-memory store of tasks and users
//! with id-keyed upsert, lookup and removal, and the login check.

use vstd::prelude::*;

use crate::general::str_eq;

verus! {

/// One task record of the reference store.
#[derive(Debug, PartialEq)]
pub struct Task {
    pub id: u64,
    pub name: String,
    pub complete: bool,
}

impl Clone for Task {
    fn clone(&self) -> (r: Self)
        ensures
            r == *self,
    {
        Task { id: self.id, name: self.name.clone(), complete: self.complete }
    }
}

/// One user record of the reference store.
#[derive(Debug, PartialEq)]
pub struct User {
    pub id: u64,
    pub username: String,
    pub password: String,
}

impl Clone for User {
    fn clone(&self) -> (r: Self)
        ensures
            r == *self,
    {
        User { id: self.id, username: self.username.clone(), password: self.password.clone() }
    }
}

/// The first user of `users` carrying `name`, in store order.
pub open spec fn first_user_with_name(users: Seq<User>, name: Seq<char>) -> Option<User>
    decreases users.len(),
{
    if users.len() == 0 {
        None
    } else if users[0].username@ == name {
        Some(users[0])
    } else {
        first_user_with_name(users.drop_first(), name)
    }
}

/// The in-memory store: tasks keyed by their id, users keyed by their id.
#[derive(Debug)]
pub struct Database {
    tasks: Vec<Task>,
    users: Vec<User>,
}

impl Database {
    /// The stored tasks, in store order.
    pub closed spec fn tasks(self) -> Seq<Task> {
        self.tasks@
    }

    /// The stored users, in store order.
    pub closed spec fn users(self) -> Seq<User> {
        self.users@
    }

    /// Task ids and user ids are unique within the store.
    pub closed spec fn wf(self) -> bool {
        &&& forall|p: int, q: int|
            0 <= p < q < self.tasks@.len() ==> self.tasks@[p].id != self.tasks@[q].id
        &&& forall|p: int, q: int|
            0 <= p < q < self.users@.len() ==> self.users@[p].id != self.users@[q].id
    }

    pub fn new() -> (r: Self)
        ensures
            r.wf(),
            r.tasks() == Seq::<Task>::empty(),
            r.users() == Seq::<User>::empty(),
    {
        Database { tasks: Vec::new(), users: Vec::new() }
    }

    fn find_task_index(&self, id: u64) -> (r: Option<usize>)
        ensures
            match r {
                Some(i) => i < self.tasks().len() && self.tasks()[i as int].id == id,
                None => forall|j: int| 0 <= j < self.tasks().len() ==> self.tasks()[j].id != id,
            },
    {
        let mut i: usize = 0;
        while i < self.tasks.len()
            invariant
                i <= self.tasks@.len(),
                forall|j: int| 0 <= j < i ==> self.tasks@[j].id != id,
            decreases self.tasks@.len() - i,
        {
            if self.tasks[i].id == id {
                return Some(i);
            }
            i = i + 1;
        }
        None
    }

    /// Inserts the task under its id: a stored task with the same id is
    /// replaced in place, any other task is kept, and nothing else appears.
    pub fn insert_task(&mut self, task: Task)
        requires
            old(self).wf(),
        ensures
            final(self).wf(),
            final(self).users() == old(self).users(),
            final(self).tasks().contains(task),
            forall|t: Task|
                old(self).tasks().contains(t) && t.id != task.id ==> #[trigger] final(self).tasks().contains(t),
            forall|t: Task|
                #[trigger] final(self).tasks().contains(t) ==> t == task || (old(self).tasks().contains(t) && t.id != task.id),
    {
        let ghost s_old = self.tasks@;
        match self.find_task_index(task.id) {
            Some(i) => {
                proof {
                    assert(s_old == old(self).tasks());
                    assert(s_old[i as int].id == task.id);
                }
                self.tasks.remove(i);
                self.tasks.insert(i, task);
                proof {
                    let s_new = self.tasks@;
                    assert(s_new =~= s_old.update(i as int, task));
                    assert(s_new[i as int] == task);
                    assert(s_new.contains(task));
                    assert forall|p: int, q: int|
                        0 <= p < q < s_new.len() implies s_new[p].id != s_new[q].id by {
                        if p == i as int {
                            assert(s_old[i as int].id != s_old[q].id);
                        } else if q == i as int {
                            assert(s_old[p].id != s_old[i as int].id);
                        } else {
                            assert(s_old[p].id != s_old[q].id);
                        }
                    }
                    assert forall|t: Task|
                        s_old.contains(t) && t.id != task.id implies #[trigger] s_new.contains(t) by {
                        let j = choose|j: int| 0 <= j < s_old.len() && s_old[j] == t;
                        assert(s_new[j] == t);
                    }
                    assert forall|t: Task| #[trigger]
                        s_new.contains(t) implies t == task || (s_old.contains(t) && t.id
                        != task.id) by {
                        let j = choose|j: int| 0 <= j < s_new.len() && s_new[j] == t;
                        if j != i as int {
                            assert(s_old[j] == t);
                            assert(s_old.contains(t));
                            if j < i as int {
                                assert(s_old[j].id != s_old[i as int].id);
                            } else {
                                assert(s_old[i as int].id != s_old[j].id);
                            }
                        }
                    }
                }
            },
            None => {
                proof {
                    assert(s_old == old(self).tasks());
                    assert forall|j: int| 0 <= j < s_old.len() implies s_old[j].id
                        != task.id by {
                        assert(old(self).tasks()[j].id != task.id);
                    }
                }
                self.tasks.push(task);
                proof {
                    let s_new = self.tasks@;
                    assert(s_new =~= s_old.push(task));
                    assert(s_new[s_old.len() as int] == task);
                    assert(s_new.contains(task));
                    assert forall|p: int, q: int|
                        0 <= p < q < s_new.len() implies s_new[p].id != s_new[q].id by {
                        if q == s_old.len() as int {
                            assert(s_old[p].id != task.id);
                        } else {
                            assert(s_old[p].id != s_old[q].id);
                        }
                    }
                    assert forall|t: Task|
                        s_old.contains(t) && t.id != task.id implies #[trigger] s_new.contains(t) by {
                        let j = choose|j: int| 0 <= j < s_old.len() && s_old[j] == t;
                        assert(s_new[j] == t);
                    }
                    assert forall|t: Task| #[trigger]
                        s_new.contains(t) implies t == task || (s_old.contains(t) && t.id
                        != task.id) by {
                        let j = choose|j: int| 0 <= j < s_new.len() && s_new[j] == t;
                        if j < s_old.len() {
                            assert(s_old[j] == t);
                            assert(s_old.contains(t));
                        }
                    }
                }
            },
        }
    }

    /// The stored task with this id, if one is stored.
    pub fn get_task(&self, id: &u64) -> (r: Option<&Task>)
        requires
            self.wf(),
        ensures
            match r {
                Some(t) => self.tasks().contains(*t) && t.id == id,
                None => forall|j: int| 0 <= j < self.tasks().len() ==> self.tasks()[j].id != id,
            },
    {
        match self.find_task_index(*id) {
            Some(i) => {
                proof {
                    assert(self.tasks@.contains(self.tasks@[i as int]));
                }
                Some(&self.tasks[i])
            },
            None => None,
        }
    }

    /// Removes the task with this id, if one is stored; every other task is
    /// kept and nothing else appears.
    pub fn delete_task(&mut self, id: &u64)
        requires
            old(self).wf(),
        ensures
            final(self).wf(),
            final(self).users() == old(self).users(),
            forall|t: Task|
                old(self).tasks().contains(t) && t.id != id ==> #[trigger] final(self).tasks().contains(t),
            forall|t: Task|
                #[trigger] final(self).tasks().contains(t) ==> old(self).tasks().contains(t)
                    && t.id != id,
    {
        let ghost s_old = self.tasks@;
        match self.find_task_index(*id) {
            Some(i) => {
                self.tasks.remove(i);
                proof {
                    let s_new = self.tasks@;
                    assert(s_new =~= s_old.subrange(0, i as int) + s_old.subrange(
                        i as int + 1,
                        s_old.len() as int,
                    ));
                    assert forall|p: int, q: int|
                        0 <= p < q < s_new.len() implies s_new[p].id != s_new[q].id by {
                        assert(s_new[p] == if p < i as int {
                            s_old[p]
                        } else {
                            s_old[p + 1]
                        });
                        assert(s_new[q] == if q < i as int {
                            s_old[q]
                        } else {
                            s_old[q + 1]
                        });
                    }
                    assert forall|t: Task|
                        s_old.contains(t) && t.id != id implies #[trigger] s_new.contains(t) by {
                        let j = choose|j: int| 0 <= j < s_old.len() && s_old[j] == t;
                        if j < i as int {
                            assert(s_new[j] == t);
                        } else {
                            assert(j != i as int);
                            assert(s_new[j - 1] == t);
                        }
                    }
                    assert forall|t: Task| #[trigger]
                        s_new.contains(t) implies s_old.contains(t) && t.id != id by {
                        let j = choose|j: int| 0 <= j < s_new.len() && s_new[j] == t;
                        if j < i as int {
                            assert(s_old[j] == t);
                            assert(s_old[j].id != s_old[i as int].id);
                        } else {
                            assert(s_old[j + 1] == t);
                            assert(s_old[i as int].id != s_old[j + 1].id);
                        }
                        assert(s_old.contains(t));
                    }
                }
            },
            None => {},
        }
    }

    /// Updates the task under its id, inserting it when none is stored:
    /// the same upsert the store uses for inserts.
    pub fn update_task(&mut self, task: Task)
        requires
            old(self).wf(),
        ensures
            final(self).wf(),
            final(self).users() == old(self).users(),
            final(self).tasks().contains(task),
            forall|t: Task|
                old(self).tasks().contains(t) && t.id != task.id ==> #[trigger] final(self).tasks().contains(t),
            forall|t: Task|
                #[trigger] final(self).tasks().contains(t) ==> t == task || (old(self).tasks().contains(t) && t.id != task.id),
    {
        self.insert_task(task);
    }

    /// Every stored task, in store order.
    pub fn get_all_tasks(&self) -> (r: Vec<Task>)
        ensures
            r@ == self.tasks(),
    {
        let mut all: Vec<Task> = Vec::new();
        let mut i: usize = 0;
        while i < self.tasks.len()
            invariant
                i <= self.tasks@.len(),
                all@ == self.tasks@.subrange(0, i as int),
            decreases self.tasks@.len() - i,
        {
            all.push((&self.tasks[i]).clone());
            proof {
                assert(all@ =~= self.tasks@.subrange(0, i as int + 1));
            }
            i = i + 1;
        }
        proof {
            assert(all@ =~= self.tasks@);
        }
        all
    }

    /// Inserts the user under its id: a stored user with the same id is
    /// replaced in place, any other user is kept, and nothing else appears.
    pub fn insert_user(&mut self, user: User)
        requires
            old(self).wf(),
        ensures
            final(self).wf(),
            final(self).tasks() == old(self).tasks(),
            final(self).users().contains(user),
            forall|u: User|
                old(self).users().contains(u) && u.id != user.id ==> #[trigger] final(self).users().contains(u),
            forall|u: User|
                #[trigger] final(self).users().contains(u) ==> u == user || (old(self).users().contains(u) && u.id != user.id),
    {
        let ghost s_old = self.users@;
        let mut i: usize = 0;
        let mut found: Option<usize> = None;
        while i < self.users.len()
            invariant
                i <= self.users@.len(),
                self.users@ == s_old,
                self.tasks@ == old(self).tasks@,
                match found {
                    Some(k) => k < i && s_old[k as int].id == user.id,
                    None => forall|j: int| 0 <= j < i ==> s_old[j].id != user.id,
                },
            decreases self.users@.len() - i,
        {
            if found.is_none() && self.users[i].id == user.id {
                found = Some(i);
            }
            i = i + 1;
        }
        match found {
            Some(k) => {
                self.users.remove(k);
                self.users.insert(k, user);
                proof {
                    let s_new = self.users@;
                    assert(s_new =~= s_old.update(k as int, user));
                    assert(s_new[k as int] == user);
                    assert(s_new.contains(user));
                    assert forall|u: User|
                        s_old.contains(u) && u.id != user.id implies #[trigger] s_new.contains(u) by {
                        let j = choose|j: int| 0 <= j < s_old.len() && s_old[j] == u;
                        assert(s_new[j] == u);
                    }
                    assert forall|u: User| #[trigger]
                        s_new.contains(u) implies u == user || (s_old.contains(u) && u.id
                        != user.id) by {
                        let j = choose|j: int| 0 <= j < s_new.len() && s_new[j] == u;
                        if j != k as int {
                            assert(s_old[j] == u);
                            assert(s_old.contains(u));
                            if j < k as int {
                                assert(s_old[j].id != s_old[k as int].id);
                            } else {
                                assert(s_old[k as int].id != s_old[j].id);
                            }
                        }
                    }
                }
            },
            None => {
                self.users.push(user);
                proof {
                    let s_new = self.users@;
                    assert(s_new =~= s_old.push(user));
                    assert(s_new[s_old.len() as int] == user);
                    assert(s_new.contains(user));
                    assert forall|u: User|
                        s_old.contains(u) && u.id != user.id implies #[trigger] s_new.contains(u) by {
                        let j = choose|j: int| 0 <= j < s_old.len() && s_old[j] == u;
                        assert(s_new[j] == u);
                    }
                    assert forall|u: User| #[trigger]
                        s_new.contains(u) implies u == user || (s_old.contains(u) && u.id
                        != user.id) by {
                        let j = choose|j: int| 0 <= j < s_new.len() && s_new[j] == u;
                        if j < s_old.len() {
                            assert(s_old[j] == u);
                            assert(s_old.contains(u));
                        }
                    }
                }
            },
        }
    }

    /// The first stored user carrying this username, in store order.
    pub fn get_user_by_name(&self, username: &str) -> (r: Option<&User>)
        ensures
            match r {
                Some(u) => first_user_with_name(self.users(), username@) == Some(*u),
                None => first_user_with_name(self.users(), username@) is None,
            },
    {
        let mut i: usize = 0;
        proof {
            assert(self.users@.skip(0) =~= self.users@);
        }
        while i < self.users.len()
            invariant
                i <= self.users@.len(),
                first_user_with_name(self.users@, username@) == first_user_with_name(
                    self.users@.skip(i as int),
                    username@,
                ),
                forall|j: int| 0 <= j < i ==> self.users@[j].username@ != username@,
            decreases self.users@.len() - i,
        {
            proof {
                assert(self.users@.skip(i as int)[0] == self.users@[i as int]);
                assert(self.users@.skip(i as int).drop_first() =~= self.users@.skip(
                    i as int + 1,
                ));
            }
            if str_eq(username, self.users[i].username.as_str()) {
                return Some(&self.users[i]);
            }
            i = i + 1;
        }
        proof {
            assert(self.users@.skip(self.users@.len() as int).len() == 0);
        }
        None
    }

    /// Whether this username and password pair matches the first stored
    /// user carrying the username: the reference service's login rule.
    pub fn login_check(&self, username: &str, password: &str) -> (r: bool)
        ensures
            r == match first_user_with_name(self.users(), username@) {
                Some(u) => u.password@ == password@,
                None => false,
            },
    {
        match self.get_user_by_name(username) {
            Some(u) => str_eq(password, u.password.as_str()),
            None => false,
        }
    }
}

} // verus!
