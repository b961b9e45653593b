use todo_service::auth::authenticate;
use todo_service::errors::ApiError;
use todo_service::models::{LoginPayload, NewTodo, RegisterPayload, TodoQueryParams};
use todo_service::service::{
    create_todo_for, delete_todo_for, get_all_todos, get_todo_for, login, register_user,
    update_todo_for,
};
use todo_service::store::Store;
use todo_service::token::create_jwt;

fn secret() -> Vec<u8> {
    b"service-test-signing-secret".to_vec()
}

#[test]
fn register_login_create_and_cross_user_read() {
    let key = secret();
    let now: u64 = 1_700_000_000;
    let mut store = Store::new();

    // Register alice with a real bcrypt hash.
    let payload = RegisterPayload {
        username: String::from("alice"),
        password: String::from("pw1"),
    };
    let user = register_user(&mut store, &payload).unwrap();
    assert_eq!(user.username, "alice");

    // Bob exists too; his stored hash is never checked in this test, so a
    // placeholder keeps the test fast.
    store
        .register(&String::from("bob"), &String::from("placeholder"))
        .unwrap();

    // Login alice and use the returned token on a protected operation.
    let creds = LoginPayload {
        username: String::from("alice"),
        password: String::from("pw1"),
    };
    let token = login(&store, &creds, &key, now).unwrap().token;
    let header = format!("Bearer {}", token);
    let alice = authenticate(Some(&header), &key, now).unwrap();
    assert_eq!(alice.username, "alice");

    // Create a todo through the authenticated identity; completed defaults
    // to false and the owner is resolved server-side.
    let todo = create_todo_for(
        &mut store,
        &alice,
        NewTodo {
            title: String::from("Buy milk"),
            completed: None,
        },
    )
    .unwrap();
    assert_eq!(todo.title, "Buy milk");
    assert!(!todo.completed);
    assert_eq!(todo.user_id, user.id);

    // A different user's token sees a 404, not a 403.
    let bob_token = create_jwt(&key, &String::from("bob"), now).unwrap();
    let bob_header = format!("Bearer {}", bob_token);
    let bob = authenticate(Some(&bob_header), &key, now).unwrap();
    assert!(matches!(
        get_todo_for(&store, &bob, todo.id),
        Err(ApiError::NotFound)
    ));
    assert!(matches!(
        update_todo_for(
            &mut store,
            &bob,
            todo.id,
            todo_service::models::UpdateTodo {
                title: Some(String::from("stolen")),
                completed: None,
            },
        ),
        Err(ApiError::NotFound)
    ));
    assert!(matches!(
        delete_todo_for(&mut store, &bob, todo.id),
        Err(ApiError::NotFound)
    ));

    // Alice still sees her unchanged todo.
    let fetched = get_todo_for(&store, &alice, todo.id).unwrap();
    assert_eq!(fetched.title, "Buy milk");
    let params = TodoQueryParams {
        completed: None,
        search: None,
    };
    assert_eq!(get_all_todos(&store, &alice, &params).len(), 1);
    assert_eq!(get_all_todos(&store, &bob, &params).len(), 0);
}

#[test]
fn login_rejects_wrong_password_and_unknown_user() {
    let key = secret();
    let now: u64 = 1_700_000_000;
    let mut store = Store::new();
    let payload = RegisterPayload {
        username: String::from("carol"),
        password: String::from("right-password"),
    };
    register_user(&mut store, &payload).unwrap();

    let wrong = LoginPayload {
        username: String::from("carol"),
        password: String::from("wrong-password"),
    };
    assert!(matches!(
        login(&store, &wrong, &key, now),
        Err(ApiError::Unauthenticated)
    ));

    let unknown = LoginPayload {
        username: String::from("nobody"),
        password: String::from("whatever"),
    };
    assert!(matches!(
        login(&store, &unknown, &key, now),
        Err(ApiError::Unauthenticated)
    ));
}

#[test]
fn register_duplicate_username_is_a_conflict() {
    let mut store = Store::new();
    let payload = RegisterPayload {
        username: String::from("dave"),
        password: String::from("pw"),
    };
    let first = register_user(&mut store, &payload).unwrap();

    let again = RegisterPayload {
        username: String::from("dave"),
        password: String::from("other"),
    };
    assert!(matches!(
        register_user(&mut store, &again),
        Err(ApiError::Conflict)
    ));

    // The first registration's user is unaffected.
    let still = store.find_by_username(&String::from("dave")).unwrap();
    assert_eq!(still.id, first.id);
    assert_eq!(still.password, first.password);
    assert_eq!(store.users.len(), 1);
}
