use vstd::prelude::*;

verus! {

/// A stored account.
///
/// `password` holds the encoded salted hash of the password, never the
/// password itself. Times are Unix seconds, UTC.
#[derive(Clone, Debug)]
pub struct User {
    pub username: String,
    pub password: String,
    pub email: String,
    pub created_at: i64,
    pub updated_at: i64,
}

/// What a caller hands in to open an account.
#[derive(Clone, Debug)]
pub struct UserRegisterRequest {
    pub username: String,
    pub password: String,
    pub email: String,
}

/// What a caller hands in to log in.
#[derive(Clone, Debug)]
pub struct UserLoginRequest {
    pub username: String,
    pub password: String,
}

impl User {
    /// The account's times never run backwards.
    pub open spec fn times_ordered(self) -> bool {
        self.created_at <= self.updated_at
    }

    /// A fresh account, created and last updated now. `None` where the
    /// clock cannot be read as Unix seconds.
    pub fn new(username: String, password: String, email: String) -> (r: Option<User>)
        ensures
            r matches Some(u) ==> {
                &&& u.username == username
                &&& u.password == password
                &&& u.email == email
                &&& u.created_at == u.updated_at
                &&& u.times_ordered()
            },
    {
        match now_unix_seconds() {
            Some(now) => Some(User { username, password, email, created_at: now, updated_at: now }),
            None => None,
        }
    }
}

/// Relies on `SystemTime::now` and on chrono's `DateTime::from_timestamp`
/// and `DateTime::timestamp`: the current time in Unix seconds, `None` where
/// the clock reads before 1970 or outside chrono's range. It depends on the
/// clock, so nothing else is stated of it.
#[verifier::external_body]
fn now_unix_seconds() -> (r: Option<i64>) {
    let elapsed = std::time::SystemTime::now().duration_since(std::time::UNIX_EPOCH).ok()?;
    let secs = i64::try_from(elapsed.as_secs()).ok()?;
    chrono::DateTime::from_timestamp(secs, 0).map(|t| t.timestamp())
}

} // verus!
