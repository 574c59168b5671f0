use vstd::prelude::*;

verus! {

/// Bytes of fresh random salt drawn for each hash.
pub const SALT_LEN: usize = 32;

/// The encoding that Argon2 with its default parameters gives `password`
/// under `salt`, or `None` where it refuses the input.
pub uninterp spec fn argon2_encoded(password: Seq<u8>, salt: Seq<u8>) -> Option<Seq<char>>;

/// What Argon2 says of `password` against the encoded hash `encoded`:
/// `Some(true)` on a match, `Some(false)` on a mismatch, `None` where the
/// encoding cannot be read.
pub uninterp spec fn argon2_verdict(encoded: Seq<char>, password: Seq<u8>) -> Option<bool>;

/// `encoded` is the Argon2 encoding of `password` under some salt of the
/// length this library draws.
pub open spec fn is_salted_hash_of(encoded: Seq<char>, password: Seq<u8>) -> bool {
    exists|salt: Seq<u8>|
        salt.len() == SALT_LEN && #[trigger] argon2_encoded(password, salt) == Some(encoded)
}

/// The encoding begins with the tag `$argon2id$`.
pub open spec fn has_argon2id_tag(encoded: Seq<char>) -> bool {
    &&& encoded.len() >= 10
    &&& encoded.subrange(0, 10) == seq!['$', 'a', 'r', 'g', 'o', 'n', '2', 'i', 'd', '$']
}

/// `salt` is the only salt under which `password` encodes to `encoded`: the
/// encoding carries its salt.
pub open spec fn salt_fixed_by(encoded: Seq<char>, password: Seq<u8>, salt: Seq<u8>) -> bool {
    forall|other: Seq<u8>| #[trigger] argon2_encoded(password, other) == Some(encoded) ==> other == salt
}

/// The password matches the encoded hash.
pub open spec fn password_matches(encoded: Seq<char>, password: Seq<u8>) -> bool {
    argon2_verdict(encoded, password) == Some(true)
}

/// Relies on rand's `OsRng` and `RngCore::try_fill_bytes`: bytes from the
/// operating system's random source, `None` where it fails. Nothing is known
/// of the bytes.
#[verifier::external_body]
fn random_salt() -> (r: Option<[u8; SALT_LEN]>) {
    let mut salt = [0u8; SALT_LEN];
    match rand::RngCore::try_fill_bytes(&mut rand::rngs::OsRng, &mut salt) {
        Ok(()) => Some(salt),
        Err(_) => None,
    }
}

/// Relies on rust-argon2's `hash_encoded` with `Config::default()`: the
/// encoded hash, salt and parameters included. The result depends on the
/// password and salt alone. Under the default configuration the crate
/// refuses only a password longer than `u32::MAX` bytes or a salt outside
/// 8..=`u32::MAX` bytes (`Context::new`); `None` stands for its error. An
/// encoding it made verifies against the same password: `verify_encoded`
/// decodes the salt and parameters from it and recomputes the hash. The
/// encoding (`encode_string`) begins with `$argon2id$` and writes the salt in
/// unpadded base64 between `$` signs, so no other salt gives the same one.
#[verifier::external_body]
fn argon2_hash_encoded(password: &[u8], salt: &[u8]) -> (r: Option<String>)
    ensures
        r is None <==> argon2_encoded(password@, salt@) is None,
        r matches Some(h) ==> argon2_encoded(password@, salt@) == Some(h@),
        r is Some <==> (password@.len() <= u32::MAX && 8 <= salt@.len() <= u32::MAX),
        r matches Some(h) ==> argon2_verdict(h@, password@) == Some(true),
        r matches Some(h) ==> has_argon2id_tag(h@),
        r matches Some(h) ==> salt_fixed_by(h@, password@, salt@),
{
    argon2::hash_encoded(password, salt, &argon2::Config::default()).ok()
}

/// Relies on rust-argon2's `verify_encoded`: whether `password` hashes to
/// `encoded` under the salt and parameters that `encoded` holds; `None` where
/// the crate returns an error.
#[verifier::external_body]
fn argon2_verify_encoded(encoded: &str, password: &[u8]) -> (r: Option<bool>)
    ensures
        r == argon2_verdict(encoded@, password@),
{
    argon2::verify_encoded(encoded, password).ok()
}

/// Hashes `password` with Argon2 under `salt`. The result is the
/// self-describing encoding: it carries the tag, parameters and salt, so
/// that `verify` needs nothing else, and `verify` accepts the password
/// against it. `None` only where Argon2 refuses the input: a password longer
/// than `u32::MAX` bytes.
pub fn hash_with_salt(password: &[u8], salt: &[u8; SALT_LEN]) -> (r: Option<String>)
    ensures
        r is Some <==> password@.len() <= u32::MAX,
        r matches Some(h) ==> argon2_encoded(password@, salt@) == Some(h@),
        r matches Some(h) ==> password_matches(h@, password@),
        r matches Some(h) ==> has_argon2id_tag(h@),
        r matches Some(h) ==> salt_fixed_by(h@, password@, salt@),
{
    argon2_hash_encoded(password, salt.as_slice())
}

/// Hashes `password` with Argon2 under a freshly drawn random salt (see
/// `hash_with_salt`). `None` where the salt cannot be drawn or Argon2
/// refuses the input.
pub fn hash(password: &[u8]) -> (r: Option<String>)
    ensures
        password@.len() > u32::MAX ==> r is None,
        r matches Some(h) ==> is_salted_hash_of(h@, password@),
        r matches Some(h) ==> password_matches(h@, password@),
        r matches Some(h) ==> has_argon2id_tag(h@),
{
    let salt = match random_salt() {
        Some(s) => s,
        None => return None,
    };
    let r = hash_with_salt(password, &salt);
    proof {
        if r is Some {
            assert(salt@.len() == SALT_LEN);
            assert(argon2_encoded(password@, salt@) == Some(r->0@));
        }
    }
    r
}

/// Two hashes of one password under different salts differ.
pub proof fn lemma_distinct_salts_distinct_hashes(
    password: Seq<u8>,
    s1: Seq<u8>,
    s2: Seq<u8>,
    h1: Seq<char>,
    h2: Seq<char>,
)
    requires
        argon2_encoded(password, s1) == Some(h1),
        salt_fixed_by(h1, password, s1),
        argon2_encoded(password, s2) == Some(h2),
        s1 != s2,
    ensures
        h1 != h2,
{
    if h1 == h2 {
        assert(argon2_encoded(password, s2) == Some(h1));
    }
}

/// A tagged hash is never a password that does not itself begin with the
/// tag.
pub proof fn lemma_hash_is_not_plaintext(encoded: Seq<char>, password: Seq<char>)
    requires
        has_argon2id_tag(encoded),
        !has_argon2id_tag(password),
    ensures
        encoded != password,
{
}

/// Whether `password` matches the encoded hash. An encoding that cannot be
/// read matches nothing.
pub fn verify(hash: &str, password: &[u8]) -> (r: bool)
    ensures
        r == password_matches(hash@, password@),
{
    match argon2_verify_encoded(hash, password) {
        Some(ok) => ok,
        None => false,
    }
}

} // verus!
