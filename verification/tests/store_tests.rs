use todo_service::errors::StoreError;
use todo_service::models::{TodoQueryParams, UpdateTodo};
use todo_service::store::Store;

fn seeded_store() -> Store {
    // Stored "hashes" are opaque text to the store itself; real bcrypt
    // hashes are exercised in the service tests.
    let mut store = Store::new();
    store
        .register(&String::from("alice"), &String::from("hash-a"))
        .unwrap();
    store
        .register(&String::from("bob"), &String::from("hash-b"))
        .unwrap();
    store
}

#[test]
fn register_assigns_generated_ids() {
    let store = seeded_store();
    let alice = store.find_by_username(&String::from("alice")).unwrap();
    let bob = store.find_by_username(&String::from("bob")).unwrap();
    assert_eq!(alice.id, 1);
    assert_eq!(bob.id, 2);
    assert_eq!(alice.password, "hash-a");
    assert!(store.find_by_username(&String::from("carol")).is_none());
}

#[test]
fn register_duplicate_fails_and_first_is_unaffected() {
    let mut store = seeded_store();
    let before = store.find_by_username(&String::from("alice")).unwrap();
    let second = store.register(&String::from("alice"), &String::from("other-hash"));
    assert!(matches!(second, Err(StoreError::DuplicateUsername)));
    let after = store.find_by_username(&String::from("alice")).unwrap();
    assert_eq!(after.id, before.id);
    assert_eq!(after.username, before.username);
    assert_eq!(after.password, before.password);
    assert_eq!(store.users.len(), 2);
}

#[test]
fn create_and_get_todo() {
    let mut store = seeded_store();
    let todo = store
        .create_todo(&String::from("alice"), &String::from("Buy milk"), false)
        .unwrap();
    assert_eq!(todo.title, "Buy milk");
    assert!(!todo.completed);
    assert_eq!(todo.user_id, 1);

    let fetched = store.get_todo(&String::from("alice"), todo.id).unwrap();
    assert_eq!(fetched.id, todo.id);
    assert_eq!(fetched.title, "Buy milk");

    assert!(store.get_todo(&String::from("alice"), todo.id + 100).is_none());
}

#[test]
fn create_todo_unknown_owner_fails() {
    let mut store = seeded_store();
    let r = store.create_todo(&String::from("carol"), &String::from("x"), false);
    assert!(matches!(r, Err(StoreError::OwnerNotFound)));
    assert_eq!(store.todos.len(), 0);
}

#[test]
fn cross_user_access_is_not_found() {
    let mut store = seeded_store();
    let todo = store
        .create_todo(&String::from("alice"), &String::from("secret task"), false)
        .unwrap();

    // Bob can neither read, update, nor delete Alice's todo; the outcome is
    // indistinguishable from the id not existing.
    assert!(store.get_todo(&String::from("bob"), todo.id).is_none());
    let patch = UpdateTodo {
        title: Some(String::from("stolen")),
        completed: Some(true),
    };
    assert!(store
        .update_todo(&String::from("bob"), todo.id, patch)
        .is_none());
    assert!(!store.delete_todo(&String::from("bob"), todo.id));

    // The todo is unchanged and still Alice's.
    let still = store.get_todo(&String::from("alice"), todo.id).unwrap();
    assert_eq!(still.title, "secret task");
    assert!(!still.completed);

    // Bob's own listing never includes it.
    let params = TodoQueryParams {
        completed: None,
        search: None,
    };
    let bobs = store.list_todos(&String::from("bob"), &params);
    assert!(bobs.is_empty());
}

#[test]
fn update_applies_partial_patch() {
    let mut store = seeded_store();
    let todo = store
        .create_todo(&String::from("alice"), &String::from("Buy milk"), false)
        .unwrap();

    // Only the completed flag changes; the title is kept.
    let patch = UpdateTodo {
        title: None,
        completed: Some(true),
    };
    let updated = store
        .update_todo(&String::from("alice"), todo.id, patch)
        .unwrap();
    assert_eq!(updated.title, "Buy milk");
    assert!(updated.completed);

    // Only the title changes; the flag is kept, and can be un-completed later.
    let patch = UpdateTodo {
        title: Some(String::from("Buy oat milk")),
        completed: None,
    };
    let updated = store
        .update_todo(&String::from("alice"), todo.id, patch)
        .unwrap();
    assert_eq!(updated.title, "Buy oat milk");
    assert!(updated.completed);

    let patch = UpdateTodo {
        title: None,
        completed: Some(false),
    };
    let updated = store
        .update_todo(&String::from("alice"), todo.id, patch)
        .unwrap();
    assert!(!updated.completed);
}

#[test]
fn update_with_empty_patch_returns_todo_unchanged() {
    let mut store = seeded_store();
    let todo = store
        .create_todo(&String::from("alice"), &String::from("Buy milk"), true)
        .unwrap();
    let patch = UpdateTodo {
        title: None,
        completed: None,
    };
    let updated = store
        .update_todo(&String::from("alice"), todo.id, patch)
        .unwrap();
    assert_eq!(updated.id, todo.id);
    assert_eq!(updated.title, todo.title);
    assert_eq!(updated.completed, todo.completed);
    assert_eq!(updated.user_id, todo.user_id);
    assert_eq!(store.todos.len(), 1);
}

#[test]
fn update_missing_id_is_not_found() {
    let mut store = seeded_store();
    let patch = UpdateTodo {
        title: Some(String::from("x")),
        completed: None,
    };
    assert!(store.update_todo(&String::from("alice"), 42, patch).is_none());
}

#[test]
fn delete_removes_only_the_requested_todo() {
    let mut store = seeded_store();
    let first = store
        .create_todo(&String::from("alice"), &String::from("first"), false)
        .unwrap();
    let second = store
        .create_todo(&String::from("alice"), &String::from("second"), false)
        .unwrap();

    assert!(store.delete_todo(&String::from("alice"), first.id));
    assert!(store.get_todo(&String::from("alice"), first.id).is_none());
    assert!(store.get_todo(&String::from("alice"), second.id).is_some());
    // Deleting again reports not found.
    assert!(!store.delete_todo(&String::from("alice"), first.id));
}

#[test]
fn empty_store_and_empty_search() {
    let store = Store::new();
    assert!(store.get_todo(&String::from("alice"), 1).is_none());
    let params = TodoQueryParams {
        completed: None,
        search: None,
    };
    assert!(store.list_todos(&String::from("alice"), &params).is_empty());

    // An empty search text matches every title.
    let mut store = seeded_store();
    store
        .create_todo(&String::from("alice"), &String::from("anything"), false)
        .unwrap();
    let params = TodoQueryParams {
        completed: None,
        search: Some(String::new()),
    };
    assert_eq!(store.list_todos(&String::from("alice"), &params).len(), 1);
}

#[test]
fn list_filters_compose_conjunctively() {
    let mut store = seeded_store();
    let alice = String::from("alice");
    let bob = String::from("bob");
    let milk_done = store
        .create_todo(&alice, &String::from("Buy milk"), true)
        .unwrap();
    store
        .create_todo(&alice, &String::from("buy MILK later"), false)
        .unwrap();
    store
        .create_todo(&alice, &String::from("Bake bread"), true)
        .unwrap();
    store
        .create_todo(&bob, &String::from("milk shake"), true)
        .unwrap();

    // completed=true AND search="milk", case-insensitively, owner-scoped.
    let params = TodoQueryParams {
        completed: Some(true),
        search: Some(String::from("milk")),
    };
    let hits = store.list_todos(&alice, &params);
    assert_eq!(hits.len(), 1);
    assert_eq!(hits[0].id, milk_done.id);
    assert_eq!(hits[0].title, "Buy milk");

    // The search alone matches both of Alice's milk todos.
    let params = TodoQueryParams {
        completed: None,
        search: Some(String::from("MILK")),
    };
    let hits = store.list_todos(&alice, &params);
    assert_eq!(hits.len(), 2);
    assert_eq!(hits[0].title, "Buy milk");
    assert_eq!(hits[1].title, "buy MILK later");

    // The completion filter alone.
    let params = TodoQueryParams {
        completed: Some(true),
        search: None,
    };
    let hits = store.list_todos(&alice, &params);
    assert_eq!(hits.len(), 2);
    assert_eq!(hits[0].title, "Buy milk");
    assert_eq!(hits[1].title, "Bake bread");

    // No filters: everything Alice owns, in store order, and nothing of Bob's.
    let params = TodoQueryParams {
        completed: None,
        search: None,
    };
    let hits = store.list_todos(&alice, &params);
    assert_eq!(hits.len(), 3);
}
