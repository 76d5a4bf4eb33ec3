//! Password and token hashing with Argon2, and the random tokens that
//! projects and databases are given.
use vstd::prelude::*;
use vstd::utf8::encode_utf8;
use vstd::string::StringSliceAdditionalSpecFns;
use vstd::string::StrSliceExecFns;
use crate::text::push_char;
use crate::git_protocol::lemma_encode_len;

verus! {

/// Whether `hash` is a PHC string that `argon2::PasswordHash::new` accepts.
pub uninterp spec fn phc_parses(hash: Seq<char>) -> bool;

/// Whether Argon2 (with the algorithm, version, parameters and salt that
/// the PHC string `hash` names) accepts `password` for `hash`.
pub uninterp spec fn argon2_verifies(hash: Seq<char>, password: Seq<u8>) -> bool;

/// `argon2::PasswordHash::new(hash).is_ok()`.
#[verifier::external_body]
pub(crate) fn is_password_hash(hash: &str) -> (r: bool)
    ensures
        r == phc_parses(hash@),
{
    argon2::PasswordHash::new(hash).is_ok()
}

/// `Argon2::default().verify_password(password, &PasswordHash::new(hash)?)`
/// succeeds. Only a hash that parses can accept a password.
#[verifier::external_body]
pub(crate) fn password_matches(hash: &str, password: &[u8]) -> (r: bool)
    ensures
        r == argon2_verifies(hash@, password@),
        r ==> phc_parses(hash@),
{
    argon2::PasswordHash::new(hash)
        .and_then(|h| argon2::PasswordVerifier::verify_password(&argon2::Argon2::default(), password, &h))
        .is_ok()
}

/// `Argon2::default().hash_password(password, &salt)` with a fresh random
/// salt from the operating system, as a PHC string (or the text of its
/// error). A hash that it gives
/// parses again and accepts the password it was made from. The salt, and
/// so the hash, differ from call to call; the operating system's random
/// source failing is not ruled out (the call then panics).
/// With the default parameters (32 bytes of output, `m=19456,t=2,p=1`) and
/// the 16-byte salt that `SaltString::generate` makes, the one check of
/// argon2 that depends on the input is `verify_inputs`: a password longer
/// than `MAX_PWD_LEN` (`0xFFFFFFFF`) bytes is refused with `PwdTooLong`.
#[verifier::external_body]
pub(crate) fn hash_secret(password: &[u8]) -> (r: Result<String, String>)
    ensures
        r is Ok <==> password@.len() <= MAX_PASSWORD_BYTES,
        r matches Ok(h) ==> phc_parses(h@) && argon2_verifies(h@, password@),
{
    let salt = argon2::password_hash::SaltString::generate(&mut argon2::password_hash::rand_core::OsRng);
    match argon2::PasswordHasher::hash_password(&argon2::Argon2::default(), password, &salt) {
        Ok(h) => Ok(h.to_string()),
        Err(e) => Err(e.to_string()),
    }
}

/// The longest password, in bytes, that Argon2 hashes.
pub const MAX_PASSWORD_BYTES: usize = 0xFFFF_FFFF;

#[verifier::external_type_specification]
#[verifier::external_body]
pub struct ExStdRng(rand::rngs::StdRng);

/// `rand::rngs::StdRng::from_entropy()`: a generator seeded by the
/// operating system (which panics where the operating system's random
/// source fails).
#[verifier::external_body]
pub(crate) fn fresh_rng() -> (r: rand::rngs::StdRng) {
    <rand::rngs::StdRng as rand::SeedableRng>::from_entropy()
}

/// `rng.gen_range(0..n)`: a number below `n`.
#[verifier::external_body]
pub(crate) fn random_below(rng: &mut rand::rngs::StdRng, n: usize) -> (r: usize)
    requires
        n > 0,
    ensures
        r < n,
{
    rand::Rng::gen_range(rng, 0..n)
}

/// The characters that tokens and generated credentials are made of: the
/// URL-safe base64 alphabet.
pub open spec fn token_charset() -> Seq<char> {
    "ABCDEFGHIJKLMNOPQRSTUVWXYZabcdefghijklmnopqrstuvwxyz0123456789-_"@
}

/// The length of a project's API token.
pub const TOKEN_LENGTH: usize = 32;

/// A random string of `len` characters of the token alphabet.
pub fn random_token(rng: &mut rand::rngs::StdRng, len: usize) -> (r: String)
    ensures
        r@.len() == len,
        forall|i: int| 0 <= i < len ==> token_charset().contains(#[trigger] r@[i]),
{
    let charset = "ABCDEFGHIJKLMNOPQRSTUVWXYZabcdefghijklmnopqrstuvwxyz0123456789-_";
    proof {
        reveal_strlit("ABCDEFGHIJKLMNOPQRSTUVWXYZabcdefghijklmnopqrstuvwxyz0123456789-_");
    }
    let n = charset.unicode_len();
    let mut s = String::new();
    let mut k: usize = 0;
    while k < len
        invariant
            n == token_charset().len(),
            n == 64,
            charset@ == token_charset(),
            k <= len,
            s@.len() == k,
            forall|i: int| 0 <= i < k ==> token_charset().contains(#[trigger] s@[i]),
        decreases len - k,
    {
        let idx = random_below(rng, n);
        let c = charset.get_char(idx);
        proof {
            assert(token_charset()[idx as int] == c);
        }
        push_char(&mut s, c);
        k = k + 1;
    }
    s
}

/// The Argon2 hash under which a user's password is stored: a hash that
/// parses and accepts the password. It is given for every password of at
/// most `MAX_PASSWORD_BYTES` bytes, and refused for a longer one.
pub fn hash_password(password: &str) -> (r: Result<String, String>)
    ensures
        r is Ok <==> encode_utf8(password@).len() <= MAX_PASSWORD_BYTES,
        r matches Ok(hash) ==> phc_parses(hash@) && argon2_verifies(hash@, encode_utf8(password@)),
{
    hash_secret(password.as_bytes())
}

/// A fresh API token for a project, and the Argon2 hash that is stored of
/// it. The hash accepts the token. The token is short enough to be hashed,
/// so a token is always given.
pub fn new_project_token() -> (r: Result<(String, String), String>)
    ensures
        r is Ok,
        r matches Ok((token, hash)) ==> {
            &&& token@.len() == TOKEN_LENGTH
            &&& forall|i: int| 0 <= i < TOKEN_LENGTH ==> token_charset().contains(#[trigger] token@[i])
            &&& argon2_verifies(hash@, encode_utf8(token@))
        },
{
    let mut rng = fresh_rng();
    let token = random_token(&mut rng, TOKEN_LENGTH);
    let bytes = token.as_str().as_bytes();
    proof {
        lemma_encode_len(token@);
    }
    match hash_secret(bytes) {
        Ok(h) => Ok((token, h)),
        Err(e) => Err(e),
    }
}

} // verus!
