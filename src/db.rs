use vstd::prelude::*;
use crate::types::User;

verus! {

#[verifier::external_type_specification]
#[verifier::external_body]
pub struct ExConnection(rusqlite::Connection);

#[verifier::external_type_specification]
#[verifier::external_body]
pub struct ExSqliteError(rusqlite::Error);

/// Why a store operation failed.
#[derive(Clone, Copy, Debug, PartialEq, Eq, Structural)]
pub enum StoreError {
    /// The username is already held by another account.
    AlreadyExists,
    /// Any other failure of the storage engine.
    Backend,
}

/// SQLite's extended result code for a violated UNIQUE constraint.
pub const SQLITE_CONSTRAINT_UNIQUE: i32 = 2067;

/// The store's error for an engine failure with extended result code `code`
/// (`None` where the failure carries no engine code).
pub open spec fn store_error_of(code: Option<i32>) -> StoreError {
    if code == Some(SQLITE_CONSTRAINT_UNIQUE) {
        StoreError::AlreadyExists
    } else {
        StoreError::Backend
    }
}

/// Maps an engine failure's extended result code to the store's error: a
/// violated uniqueness constraint is `AlreadyExists`, all else `Backend`.
pub fn classify_failure(code: Option<i32>) -> (r: StoreError)
    ensures
        r == store_error_of(code),
{
    match code {
        Some(c) => {
            if c == SQLITE_CONSTRAINT_UNIQUE {
                StoreError::AlreadyExists
            } else {
                StoreError::Backend
            }
        },
        None => StoreError::Backend,
    }
}

/// One row of the accounts table as read back: username, password hash,
/// email (NULL reads as `None`), creation and update time.
pub type AccountRow = (String, String, Option<String>, i64, i64);

/// The email a row stands for: a NULL column is the empty string.
pub open spec fn row_email(row: AccountRow) -> Seq<char> {
    match row.2 {
        Some(e) => e@,
        None => Seq::empty(),
    }
}

/// `u` holds what `row` holds.
pub open spec fn user_matches_row(u: User, row: AccountRow) -> bool {
    &&& u.username@ == row.0@
    &&& u.password@ == row.1@
    &&& u.email@ == row_email(row)
    &&& u.created_at == row.3
    &&& u.updated_at == row.4
}

/// The row has username exactly `name` (case-sensitive).
pub open spec fn has_name(name: Seq<char>) -> spec_fn(AccountRow) -> bool {
    |row: AccountRow| row.0@ == name
}

/// The rows whose username is exactly `name`, in order.
pub open spec fn rows_named(rows: Seq<AccountRow>, name: Seq<char>) -> Seq<AccountRow> {
    rows.filter(has_name(name))
}

/// `users` are the accounts that `rows` stand for, one for one, in order.
pub open spec fn users_match_rows(users: Seq<User>, rows: Seq<AccountRow>) -> bool {
    &&& users.len() == rows.len()
    &&& forall|i: int| 0 <= i < users.len() ==> user_matches_row(#[trigger] users[i], rows[i])
}

/// `found` could be a lookup of `name`: on success every account in it
/// holds exactly that username, and a failure is `Backend`.
pub open spec fn lookup_for(found: Result<Seq<User>, StoreError>, name: Seq<char>) -> bool {
    match found {
        Ok(users) => forall|i: int| 0 <= i < users.len() ==> (#[trigger] users[i]).username@ == name,
        Err(e) => e == StoreError::Backend,
    }
}

/// The first account of a lookup, `None` where it found none.
pub open spec fn first_found(found: Result<Seq<User>, StoreError>) -> Result<Option<User>, StoreError> {
    match found {
        Ok(users) => Ok(if users.len() == 0 { None } else { Some(users[0]) }),
        Err(e) => Err(e),
    }
}

/// Whether a lookup found an account.
pub open spec fn any_found(found: Result<Seq<User>, StoreError>) -> Result<bool, StoreError> {
    match found {
        Ok(users) => Ok(users.len() > 0),
        Err(e) => Err(e),
    }
}

/// A lookup result as the accounts it found.
pub open spec fn lookup_view(found: Result<Vec<User>, StoreError>) -> Result<Seq<User>, StoreError> {
    match found {
        Ok(users) => Ok(users@),
        Err(e) => Err(e),
    }
}

/// The first account of a lookup, `None` where it found none; a failed
/// lookup is passed on.
pub fn first_of_lookup(found: Result<Vec<User>, StoreError>) -> (r: Result<Option<User>, StoreError>)
    ensures
        r == first_found(lookup_view(found)),
{
    match found {
        Ok(mut users) => {
            if users.len() == 0 {
                Ok(None)
            } else {
                Ok(Some(users.swap_remove(0)))
            }
        },
        Err(e) => Err(e),
    }
}

/// Whether a lookup found an account; a failed lookup is passed on, never
/// read as "absent".
pub fn presence_of_lookup(found: &Result<Vec<User>, StoreError>) -> (r: Result<bool, StoreError>)
    ensures
        r == any_found(lookup_view(*found)),
{
    match found {
        Ok(users) => Ok(users.len() > 0),
        Err(e) => Err(*e),
    }
}

/// The result of an insert whose engine call returned `res` (its error given
/// as the engine's extended result code).
pub open spec fn insert_result(res: Result<usize, Option<i32>>) -> Result<(), StoreError> {
    match res {
        Ok(_) => Ok(()),
        Err(code) => Err(store_error_of(code)),
    }
}

/// The account a row stands for.
pub fn user_from_row(row: &AccountRow) -> (u: User)
    ensures
        user_matches_row(u, *row),
{
    let email = match &row.2 {
        Some(e) => e.clone(),
        None => String::new(),
    };
    User {
        username: row.0.clone(),
        password: row.1.clone(),
        email,
        created_at: row.3,
        updated_at: row.4,
    }
}

/// The accounts of the rows whose username is exactly `username`, in the
/// order of the rows.
pub fn users_from_rows(rows: &Vec<AccountRow>, username: &String) -> (r: Vec<User>)
    ensures
        users_match_rows(r@, rows_named(rows@, username@)),
{
    let mut out: Vec<User> = Vec::new();
    let mut i: usize = 0;
    while i < rows.len()
        invariant
            i <= rows@.len(),
            out@.len() == rows_named(rows@.take(i as int), username@).len(),
            forall|j: int|
                0 <= j < out@.len() ==> user_matches_row(
                    #[trigger] out@[j],
                    rows_named(rows@.take(i as int), username@)[j],
                ),
        decreases rows@.len() - i,
    {
        proof {
            reveal(Seq::filter);
            assert(rows@.take(i as int + 1).drop_last() =~= rows@.take(i as int));
            assert(rows@.take(i as int + 1).last() == rows@[i as int]);
        }
        if rows[i].0.eq(username) {
            let u = user_from_row(&rows[i]);
            out.push(u);
        }
        i = i + 1;
    }
    proof {
        assert(rows@.take(rows@.len() as int) =~= rows@);
    }
    out
}

/// Creates the accounts table where it is missing. The UNIQUE constraint on
/// `username` is what keeps two accounts from sharing a name, also when two
/// registrations race.
pub const CREATE_USERS_TABLE: &'static str = "CREATE TABLE IF NOT EXISTS users (
    id integer primary key,
    username text not null unique,
    password text not null,
    email text,
    created_at integer not null,
    updated_at integer not null
)";

/// Reads the accounts with a given username (the first parameter).
pub const SELECT_USERS_BY_NAME: &'static str =
    "SELECT username, password, email, created_at, updated_at FROM users WHERE username = ?1";

/// Adds one account; its five values are the parameters.
pub const INSERT_USER: &'static str = "INSERT INTO users (username, password, email, created_at, updated_at)
    VALUES (?1, ?2, ?3, ?4, ?5)";

/// The file that `DB::new` opens.
pub const DEFAULT_PATH: &'static str = "auth.db";

/// Relies on rusqlite's `Connection::open`: a connection to the database at
/// `path`, or the engine's error. Whether it opens depends on the machine.
#[verifier::external_body]
fn open_connection(path: &str) -> (r: Result<rusqlite::Connection, rusqlite::Error>) {
    rusqlite::Connection::open(path)
}

/// Relies on rusqlite's `Connection::execute_batch`: runs the statements of
/// `sql`, or returns the engine's error.
#[verifier::external_body]
fn execute_batch(conn: &rusqlite::Connection, sql: &str) -> (r: Result<(), rusqlite::Error>) {
    conn.execute_batch(sql)
}

/// Relies on rusqlite's `Connection::execute`: runs `sql` once with the five
/// values bound to its parameters, and gives the number of rows changed or
/// the engine's error.
#[verifier::external_body]
fn execute_with_five(
    conn: &rusqlite::Connection,
    sql: &str,
    a: &str,
    b: &str,
    c: &str,
    d: i64,
    e: i64,
) -> (r: Result<usize, rusqlite::Error>) {
    conn.execute(sql, (a, b, c, d, e))
}

/// Relies on rusqlite's `Connection::prepare` and `Statement::query_map`: runs
/// the query `sql` with `key` bound to its parameter and reads each row it
/// yields as a tuple of its five columns, or returns the engine's error. What
/// the rows hold depends on the database, so nothing is stated of them.
#[verifier::external_body]
fn query_five_columns(conn: &rusqlite::Connection, sql: &str, key: &str) -> (r: Result<
    Vec<AccountRow>,
    rusqlite::Error,
>) {
    let mut stmt = conn.prepare(sql)?;
    let rows = stmt.query_map([key], |row| row.try_into())?;
    rows.collect()
}

/// Relies on rusqlite's `Error::sqlite_extended_error_code`: the engine's
/// extended result code where the error is an engine failure.
#[verifier::external_body]
fn extended_code(e: &rusqlite::Error) -> (r: Option<i32>) {
    e.sqlite_extended_error_code()
}

/// The credential store: one connection to a SQLite database holding the
/// accounts table.
pub struct DB {
    conn: rusqlite::Connection,
}

impl DB {
    /// Opens the database at `path` and makes sure the accounts table exists.
    /// Calling it again on the same database changes nothing. Any failure is
    /// `Backend`.
    pub fn open(path: &str) -> (r: Result<DB, StoreError>)
        ensures
            r matches Err(e) ==> e == StoreError::Backend,
    {
        let conn = match open_connection(path) {
            Ok(c) => c,
            Err(_) => return Err(StoreError::Backend),
        };
        match execute_batch(&conn, CREATE_USERS_TABLE) {
            Ok(()) => Ok(DB { conn }),
            Err(_) => Err(StoreError::Backend),
        }
    }

    /// Opens the store in its default file.
    pub fn new() -> (r: Result<DB, StoreError>)
        ensures
            r matches Err(e) ==> e == StoreError::Backend,
    {
        DB::open(DEFAULT_PATH)
    }
}

/// The accounts whose username is exactly `username` (case-sensitive). An
/// absent name gives an empty list, not an error; a failure of the engine is
/// `Backend`.
pub fn get_user_by_username(db: &DB, username: String) -> (r: Result<Vec<User>, StoreError>)
    ensures
        r matches Ok(users) ==> exists|rows: Seq<AccountRow>|
            users_match_rows(users@, #[trigger] rows_named(rows, username@)),
        r matches Ok(users) ==> forall|i: int|
            0 <= i < users@.len() ==> (#[trigger] users@[i]).username@ == username@,
        r matches Err(e) ==> e == StoreError::Backend,
{
    match query_five_columns(&db.conn, SELECT_USERS_BY_NAME, username.as_str()) {
        Ok(rows) => {
            let users = users_from_rows(&rows, &username);
            proof {
                assert(users_match_rows(users@, rows_named(rows@, username@)));
                lemma_rows_named_have_name(rows@, username@);
                assert forall|i: int| 0 <= i < users@.len() implies (
                #[trigger] users@[i]).username@ == username@ by {
                    assert(user_matches_row(users@[i], rows_named(rows@, username@)[i]));
                }
            }
            Ok(users)
        },
        Err(_) => Err(StoreError::Backend),
    }
}

/// Every row that `rows_named` keeps has the name asked for.
proof fn lemma_rows_named_have_name(rows: Seq<AccountRow>, name: Seq<char>)
    ensures
        forall|i: int|
            0 <= i < rows_named(rows, name).len() ==> (#[trigger] rows_named(rows, name)[i]).0@
                == name,
{
    assert forall|i: int| 0 <= i < rows_named(rows, name).len() implies (
    #[trigger] rows_named(rows, name)[i]).0@ == name by {
        rows.lemma_filter_pred(has_name(name), i);
    }
}

/// The account with username exactly `username`, or `None` where there is
/// none.
pub fn get_user(db: &DB, username: String) -> (r: Result<Option<User>, StoreError>)
    ensures
        exists|found: Result<Seq<User>, StoreError>|
            lookup_for(found, username@) && r == #[trigger] first_found(found),
        r matches Ok(Some(u)) ==> u.username@ == username@,
        r matches Err(e) ==> e == StoreError::Backend,
{
    let found = get_user_by_username(db, username);
    let ghost lookup = lookup_view(found);
    let r = first_of_lookup(found);
    assert(lookup_for(lookup, username@) && r == first_found(lookup));
    r
}

/// Whether an account with username exactly `username` exists.
pub fn contains_user(db: &DB, username: String) -> (r: Result<bool, StoreError>)
    ensures
        exists|found: Result<Seq<User>, StoreError>|
            lookup_for(found, username@) && r == #[trigger] any_found(found),
        r matches Err(e) ==> e == StoreError::Backend,
{
    let found = get_user_by_username(db, username);
    let r = presence_of_lookup(&found);
    assert(lookup_for(lookup_view(found), username@) && r == any_found(lookup_view(found)));
    r
}

/// Stores `new_user` as a new account. A username already held gives
/// `AlreadyExists` and stores nothing: the table's uniqueness constraint
/// decides, so two racing inserts of one name cannot both succeed. Any other
/// failure is `Backend`. What the table holds is the engine's to say, so the
/// contract states how the engine's answer is passed on.
pub fn insert_user(db: &DB, new_user: User) -> (r: Result<(), StoreError>)
    ensures
        exists|res: Result<usize, Option<i32>>| r == #[trigger] insert_result(res),
{
    let email: &str = new_user.email.as_str();
    match execute_with_five(
        &db.conn,
        INSERT_USER,
        new_user.username.as_str(),
        new_user.password.as_str(),
        email,
        new_user.created_at,
        new_user.updated_at,
    ) {
        Ok(n) => {
            assert(Ok::<(), StoreError>(()) == insert_result(Ok(n)));
            Ok(())
        },
        Err(e) => {
            let code = extended_code(&e);
            let err = classify_failure(code);
            assert(Err::<(), StoreError>(err) == insert_result(Err(code)));
            Err(err)
        },
    }
}

} // verus!
