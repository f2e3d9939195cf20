use agent_forge::code_template::{Database, Task, User};

fn task(id: u64, name: &str, complete: bool) -> Task {
    Task { id, name: String::from(name), complete }
}

fn user(id: u64, username: &str, password: &str) -> User {
    User { id, username: String::from(username), password: String::from(password) }
}

#[test]
fn insert_and_get_task() {
    let mut db = Database::new();
    db.insert_task(task(1, "write tests", false));
    db.insert_task(task(2, "ship", false));
    let t = db.get_task(&1).expect("task 1 is stored");
    assert_eq!(t.name, String::from("write tests"));
    assert!(db.get_task(&3).is_none());
}

#[test]
fn insert_task_replaces_same_id() {
    let mut db = Database::new();
    db.insert_task(task(1, "draft", false));
    db.insert_task(task(1, "final", true));
    assert_eq!(db.get_all_tasks().len(), 1);
    let t = db.get_task(&1).expect("task 1 is stored");
    assert_eq!(t.name, String::from("final"));
    assert!(t.complete);
}

#[test]
fn update_task_upserts() {
    let mut db = Database::new();
    db.update_task(task(7, "new by update", false));
    assert_eq!(db.get_all_tasks().len(), 1);
    db.update_task(task(7, "updated", true));
    let all = db.get_all_tasks();
    assert_eq!(all.len(), 1);
    assert_eq!(all[0].name, String::from("updated"));
}

#[test]
fn delete_task_removes_only_that_id() {
    let mut db = Database::new();
    db.insert_task(task(1, "keep", false));
    db.insert_task(task(2, "drop", false));
    db.delete_task(&2);
    assert!(db.get_task(&2).is_none());
    assert!(db.get_task(&1).is_some());
    db.delete_task(&99);
    assert_eq!(db.get_all_tasks().len(), 1);
}

#[test]
fn get_all_tasks_in_store_order() {
    let mut db = Database::new();
    db.insert_task(task(3, "c", false));
    db.insert_task(task(1, "a", false));
    db.insert_task(task(2, "b", true));
    let all = db.get_all_tasks();
    assert_eq!(all.len(), 3);
    assert_eq!(all[0].id, 3);
    assert_eq!(all[1].id, 1);
    assert_eq!(all[2].id, 2);
}

#[test]
fn users_and_login() {
    let mut db = Database::new();
    db.insert_user(user(1, "ada", "pw1"));
    db.insert_user(user(2, "grace", "pw2"));
    let u = db.get_user_by_name("grace").expect("grace is stored");
    assert_eq!(u.id, 2);
    assert!(db.get_user_by_name("linus").is_none());
    assert!(db.login_check("ada", "pw1"));
    assert!(!db.login_check("ada", "wrong"));
    assert!(!db.login_check("nobody", "pw1"));
}

#[test]
fn login_uses_first_user_with_name() {
    let mut db = Database::new();
    db.insert_user(user(1, "sam", "first"));
    db.insert_user(user(2, "sam", "second"));
    // the first stored user with the name decides
    assert!(db.login_check("sam", "first"));
    assert!(!db.login_check("sam", "second"));
}

#[test]
fn insert_user_replaces_same_id() {
    let mut db = Database::new();
    db.insert_user(user(1, "old", "a"));
    db.insert_user(user(1, "new", "b"));
    assert!(db.get_user_by_name("old").is_none());
    let u = db.get_user_by_name("new").expect("replaced user stored");
    assert_eq!(u.id, 1);
}
