use auth_service::db::{
    classify_failure, contains_user, first_of_lookup, get_user, get_user_by_username, insert_user,
    presence_of_lookup, user_from_row, users_from_rows, AccountRow, StoreError, DB,
    SQLITE_CONSTRAINT_UNIQUE,
};
use auth_service::types::User;

fn account(name: &str, hash: &str, email: &str, created: i64, updated: i64) -> User {
    User {
        username: name.to_string(),
        password: hash.to_string(),
        email: email.to_string(),
        created_at: created,
        updated_at: updated,
    }
}

fn row(name: &str, hash: &str, email: Option<&str>, created: i64, updated: i64) -> AccountRow {
    (name.to_string(), hash.to_string(), email.map(|e| e.to_string()), created, updated)
}

#[test]
fn unique_violation_is_already_exists() {
    assert_eq!(SQLITE_CONSTRAINT_UNIQUE, 2067);
    assert_eq!(classify_failure(Some(2067)), StoreError::AlreadyExists);
    assert_eq!(classify_failure(Some(19)), StoreError::Backend);
    assert_eq!(classify_failure(Some(1555)), StoreError::Backend);
    assert_eq!(classify_failure(None), StoreError::Backend);
}

#[test]
fn row_becomes_account() {
    let u = user_from_row(&row("ann", "$h", Some("a@b.c"), 10, 12));
    assert_eq!(u.username, "ann");
    assert_eq!(u.password, "$h");
    assert_eq!(u.email, "a@b.c");
    assert_eq!(u.created_at, 10);
    assert_eq!(u.updated_at, 12);
    let v = user_from_row(&row("ben", "$g", None, 3, 4));
    assert_eq!(v.email, "");
}

#[test]
fn rows_are_filtered_by_exact_name() {
    let rows = vec![
        row("ann", "$1", None, 1, 1),
        row("Ann", "$2", None, 2, 2),
        row("ann ", "$3", None, 3, 3),
        row("ann", "$4", Some("x"), 4, 4),
    ];
    let users = users_from_rows(&rows, &"ann".to_string());
    assert_eq!(users.len(), 2);
    assert_eq!(users[0].password, "$1");
    assert_eq!(users[1].password, "$4");
    assert_eq!(users[1].email, "x");
    assert!(users_from_rows(&Vec::new(), &"ann".to_string()).is_empty());
    assert!(users_from_rows(&rows, &"bob".to_string()).is_empty());
}

#[test]
fn insert_then_read_back() {
    let db = DB::open(":memory:").unwrap();
    assert_eq!(get_user(&db, "zoe".to_string()).unwrap().map(|u| u.username), None);
    assert_eq!(contains_user(&db, "zoe".to_string()), Ok(false));
    assert_eq!(insert_user(&db, account("zoe", "$argon2id$x", "", 100, 150)), Ok(()));
    assert_eq!(contains_user(&db, "zoe".to_string()), Ok(true));
    assert_eq!(contains_user(&db, "ZOE".to_string()), Ok(false));
    let zoe = get_user(&db, "zoe".to_string()).unwrap().unwrap();
    assert_eq!(zoe.password, "$argon2id$x");
    assert_eq!(zoe.email, "");
    assert_eq!(zoe.created_at, 100);
    assert_eq!(zoe.updated_at, 150);
}

#[test]
fn duplicate_insert_is_already_exists() {
    let db = DB::open(":memory:").unwrap();
    assert_eq!(insert_user(&db, account("yan", "$a", "", 1, 1)), Ok(()));
    assert_eq!(insert_user(&db, account("yan", "$b", "other", 2, 2)), Err(StoreError::AlreadyExists));
    let rows = get_user_by_username(&db, "yan".to_string()).unwrap();
    assert_eq!(rows.len(), 1);
    assert_eq!(rows[0].password, "$a");
}

#[test]
fn opening_twice_keeps_the_table() {
    let uri = "file:open_twice?mode=memory&cache=shared";
    let first = DB::open(uri).unwrap();
    assert_eq!(insert_user(&first, account("xia", "$h", "", 5, 5)), Ok(()));
    let second = DB::open(uri).unwrap();
    assert_eq!(contains_user(&second, "xia".to_string()), Ok(true));
}

#[test]
fn unreachable_store_is_backend_error() {
    let r = DB::open("/no/such/directory/for/this/store/auth.db");
    assert_eq!(r.err(), Some(StoreError::Backend));
}

#[test]
fn new_account_times_agree() {
    let u = User::new("wes".to_string(), "$h".to_string(), "w@x".to_string()).unwrap();
    assert_eq!(u.username, "wes");
    assert_eq!(u.password, "$h");
    assert_eq!(u.email, "w@x");
    assert_eq!(u.created_at, u.updated_at);
    assert!(u.created_at > 1_600_000_000);
}

#[test]
fn first_account_of_a_lookup() {
    assert_eq!(first_of_lookup(Ok(Vec::new())).unwrap().map(|u| u.username), None);
    let found = vec![account("ann", "$1", "", 1, 1), account("ann", "$2", "", 2, 2)];
    let first = first_of_lookup(Ok(found)).unwrap().unwrap();
    assert_eq!(first.password, "$1");
    assert_eq!(first_of_lookup(Err(StoreError::Backend)).err(), Some(StoreError::Backend));
}

#[test]
fn presence_from_a_lookup() {
    assert_eq!(presence_of_lookup(&Ok(Vec::new())), Ok(false));
    assert_eq!(presence_of_lookup(&Ok(vec![account("ann", "$1", "", 1, 1)])), Ok(true));
    assert_eq!(presence_of_lookup(&Err(StoreError::Backend)), Err(StoreError::Backend));
}
