use vstd::prelude::*;
use vstd::utf8::encode_utf8;
use crate::db::{DB, StoreError, contains_user, get_user, insert_user};
use crate::password::{hash, verify, password_matches};
use crate::types::{User, UserLoginRequest, UserRegisterRequest};

verus! {

/// What a registration comes to.
#[derive(Clone, Copy, Debug, PartialEq, Eq, Structural)]
pub enum RegisterOutcome {
    /// The account was stored.
    Created,
    /// Another account holds the username; nothing was stored.
    UsernameTaken,
    /// The username or the password is empty; nothing was stored.
    Invalid,
    /// The store or the hashing failed; the cause is not disclosed.
    InternalError,
}

/// What a login attempt comes to.
#[derive(Clone, Copy, Debug, PartialEq, Eq, Structural)]
pub enum LoginOutcome {
    /// The password matches the account's stored hash.
    Authenticated,
    /// No such account, or the wrong password: the two are not told apart.
    InvalidCredentials,
    /// The store failed; the cause is not disclosed.
    InternalError,
}

/// An encoded hash in the shape the store holds, matched by no password of
/// interest. Checking a password against it when the account is absent
/// costs about what checking against a real account does, so the time a
/// failed login takes does not tell whether the username exists.
pub const ABSENT_ACCOUNT_HASH: &'static str =
    "$argon2id$v=19$m=19456,t=2,p=1$AAAAAAAAAAAAAAAAAAAAAA$AAAAAAAAAAAAAAAAAAAAAAAAAAAAAAAAAAAAAAAAAAA";

/// A registration may go ahead: neither username nor password is empty.
pub open spec fn registration_valid(username: Seq<char>, password: Seq<char>) -> bool {
    username.len() > 0 && password.len() > 0
}

/// The outcome of a registration whose insert returned `res`.
pub open spec fn insert_outcome(res: Result<(), StoreError>) -> RegisterOutcome {
    match res {
        Ok(()) => RegisterOutcome::Created,
        Err(StoreError::AlreadyExists) => RegisterOutcome::UsernameTaken,
        Err(StoreError::Backend) => RegisterOutcome::InternalError,
    }
}

/// Argon2 takes the password: its UTF-8 form is at most `u32::MAX` bytes.
pub open spec fn hashable(password: Seq<char>) -> bool {
    encode_utf8(password).len() <= u32::MAX
}

/// What the lookup of the username decides on its own: a failure is
/// `InternalError`, a name found is taken, and `None` means go on.
pub open spec fn lookup_decision(lookup: Result<bool, StoreError>) -> Option<RegisterOutcome> {
    match lookup {
        Err(_) => Some(RegisterOutcome::InternalError),
        Ok(true) => Some(RegisterOutcome::UsernameTaken),
        Ok(false) => None,
    }
}

/// The outcome of a valid registration where the lookup of the username gave
/// `lookup`, the account was made or not (`prepared`: the hash and the clock
/// both gave a value), and the insert gave `inserted`. The insert is only
/// reached when the lookup found nothing and the account was made.
pub open spec fn registration_outcome(
    lookup: Result<bool, StoreError>,
    prepared: bool,
    inserted: Result<(), StoreError>,
) -> RegisterOutcome {
    match lookup_decision(lookup) {
        Some(o) => o,
        None => if prepared {
            insert_outcome(inserted)
        } else {
            RegisterOutcome::InternalError
        },
    }
}

/// The outcome of a login with `password` (as UTF-8 bytes) where the lookup
/// of the username gave `found`.
pub open spec fn login_outcome(found: Result<Option<User>, StoreError>, password: Seq<u8>) -> LoginOutcome {
    match found {
        Err(_) => LoginOutcome::InternalError,
        Ok(None) => LoginOutcome::InvalidCredentials,
        Ok(Some(u)) => if password_matches(u.password@, password) {
            LoginOutcome::Authenticated
        } else {
            LoginOutcome::InvalidCredentials
        },
    }
}

/// `found` could be the lookup of `username`: any account in it holds that
/// username exactly.
pub open spec fn found_for(found: Result<Option<User>, StoreError>, username: Seq<char>) -> bool {
    found matches Ok(Some(u)) ==> u.username@ == username
}

/// Whether a registration may go ahead.
pub fn is_valid_registration(request: &UserRegisterRequest) -> (r: bool)
    ensures
        r == registration_valid(request.username@, request.password@),
{
    !request.username.as_str().is_empty() && !request.password.as_str().is_empty()
}

/// What the lookup of the username decides: `InternalError` where it failed,
/// `UsernameTaken` where it found the name, `None` (go on) where it did not.
pub fn after_lookup(lookup: Result<bool, StoreError>) -> (r: Option<RegisterOutcome>)
    ensures
        r == lookup_decision(lookup),
{
    match lookup {
        Err(_) => Some(RegisterOutcome::InternalError),
        Ok(true) => Some(RegisterOutcome::UsernameTaken),
        Ok(false) => None,
    }
}

/// The outcome of a registration whose insert returned `res`: a taken
/// username is `UsernameTaken`, any other failure `InternalError`.
pub fn register_outcome(res: Result<(), StoreError>) -> (r: RegisterOutcome)
    ensures
        r == insert_outcome(res),
{
    match res {
        Ok(()) => RegisterOutcome::Created,
        Err(StoreError::AlreadyExists) => RegisterOutcome::UsernameTaken,
        Err(StoreError::Backend) => RegisterOutcome::InternalError,
    }
}

/// Decides a login from the lookup `found` and the password given. An absent
/// account is checked against `ABSENT_ACCOUNT_HASH` all the same, and then
/// refused.
pub fn check_credentials(found: Result<Option<User>, StoreError>, password: &[u8]) -> (r:
    LoginOutcome)
    ensures
        r == login_outcome(found, password@),
{
    match found {
        Err(_) => LoginOutcome::InternalError,
        Ok(None) => {
            let _ = verify(ABSENT_ACCOUNT_HASH, password);
            LoginOutcome::InvalidCredentials
        },
        Ok(Some(u)) => {
            if verify(u.password.as_str(), password) {
                LoginOutcome::Authenticated
            } else {
                LoginOutcome::InvalidCredentials
            }
        },
    }
}

/// Registers an account: rejects an empty username or password, hashes the
/// password under a fresh salt, and stores the account. The store's
/// uniqueness constraint has the last word on a taken username; the lookup
/// before it only spares the hashing where the name is plainly taken.
pub fn register(db: &DB, new_user: UserRegisterRequest) -> (r: RegisterOutcome)
    ensures
        r == RegisterOutcome::Invalid <==> !registration_valid(
            new_user.username@,
            new_user.password@,
        ),
        registration_valid(new_user.username@, new_user.password@) ==> exists|
            lookup: Result<bool, StoreError>,
            prepared: bool,
            inserted: Result<(), StoreError>,
        |
            (prepared ==> hashable(new_user.password@)) && r == #[trigger] registration_outcome(
                lookup,
                prepared,
                inserted,
            ),
{
    if !is_valid_registration(&new_user) {
        return RegisterOutcome::Invalid;
    }
    let lookup = contains_user(db, new_user.username.clone());
    if let Some(decided) = after_lookup(lookup) {
        assert(decided == registration_outcome(lookup, false, Ok(())));
        return decided;
    }
    let hashed_password = match hash(new_user.password.as_str().as_bytes()) {
        Some(h) => h,
        None => {
            assert(RegisterOutcome::InternalError == registration_outcome(lookup, false, Ok(())));
            return RegisterOutcome::InternalError;
        },
    };
    let account = match User::new(new_user.username, hashed_password, new_user.email) {
        Some(a) => a,
        None => {
            assert(RegisterOutcome::InternalError == registration_outcome(lookup, false, Ok(())));
            return RegisterOutcome::InternalError;
        },
    };
    let inserted = insert_user(db, account);
    let r = register_outcome(inserted);
    assert(r == registration_outcome(lookup, true, inserted));
    r
}

/// Logs in: looks the username up and checks the password against the
/// stored hash. An unknown username and a wrong password both give
/// `InvalidCredentials`.
pub fn login(db: &DB, credentials: UserLoginRequest) -> (r: LoginOutcome)
    ensures
        exists|found: Result<Option<User>, StoreError>|
            found_for(found, credentials.username@) && r == #[trigger] login_outcome(
                found,
                encode_utf8(credentials.password@),
            ),
        r == LoginOutcome::Authenticated ==> exists|u: User|
            u.username@ == credentials.username@ && #[trigger] password_matches(
                u.password@,
                encode_utf8(credentials.password@),
            ),
{
    let found = get_user(db, credentials.username);
    let ghost g = found;
    let r = check_credentials(found, credentials.password.as_str().as_bytes());
    proof {
        assert(found_for(g, credentials.username@));
        assert(r == login_outcome(g, encode_utf8(credentials.password@)));
        if r == LoginOutcome::Authenticated {
            let u = g->Ok_0->Some_0;
            assert(password_matches(u.password@, encode_utf8(credentials.password@)));
        }
    }
    r
}

/// A login for a username with no account is refused with
/// `InvalidCredentials`, the same outcome as a wrong password, whatever the
/// password.
pub proof fn lemma_unknown_username_refused(password: Seq<u8>)
    ensures
        login_outcome(Ok(None), password) == LoginOutcome::InvalidCredentials,
{
}

/// A password that does not match an account's stored hash is refused with
/// `InvalidCredentials`.
pub proof fn lemma_wrong_password_refused(account: User, password: Seq<u8>)
    requires
        !password_matches(account.password@, password),
    ensures
        login_outcome(Ok(Some(account)), password) == LoginOutcome::InvalidCredentials,
{
}

/// A password that matches an account's stored hash is accepted.
pub proof fn lemma_matching_password_accepted(account: User, password: Seq<u8>)
    requires
        password_matches(account.password@, password),
    ensures
        login_outcome(Ok(Some(account)), password) == LoginOutcome::Authenticated,
{
}

/// A registration counts as created exactly when its insert stored the row,
/// and an insert refused by the uniqueness constraint is reported as a taken
/// username, never as created.
pub proof fn lemma_created_only_when_stored(res: Result<(), StoreError>)
    ensures
        insert_outcome(res) == RegisterOutcome::Created <==> res is Ok,
        res == Err::<(), StoreError>(StoreError::AlreadyExists) ==> insert_outcome(res)
            == RegisterOutcome::UsernameTaken,
{
}

/// A valid registration whose name the store does not hold and whose insert
/// succeeds is `Created`; one whose name the store already holds is
/// `UsernameTaken`, whatever the password and the insert; a failed lookup is
/// `InternalError`, never a domain outcome.
pub proof fn lemma_registration_decisions(
    prepared: bool,
    inserted: Result<(), StoreError>,
)
    ensures
        registration_outcome(Ok(false), true, Ok(())) == RegisterOutcome::Created,
        registration_outcome(Ok(true), prepared, inserted) == RegisterOutcome::UsernameTaken,
        registration_outcome(Err(StoreError::Backend), prepared, inserted)
            == RegisterOutcome::InternalError,
        registration_outcome(Ok(false), true, Err(StoreError::AlreadyExists))
            == RegisterOutcome::UsernameTaken,
{
}

} // verus!
