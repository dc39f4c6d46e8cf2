//! Password hashing with Argon2id, and checking a password against a stored hash.
//!
//! Hashes are PHC strings such as `$argon2id$v=19$m=19456,t=2,p=1$<salt>$<key>`:
//! they name the algorithm, its version and cost parameters, and hold the salt
//! and the derived key, so checking needs nothing stored besides them.
use vstd::prelude::*;
use argon2::{Algorithm, Argon2, Params, PasswordHasher, PasswordVerifier, Version};
use password_hash::SaltString;
use vstd::utf8::encode_utf8;
use crate::decimal::decimal;

verus! {

#[verifier::external_type_specification]
#[verifier::external_body]
pub struct ExPasswordHashError(password_hash::Error);

#[verifier::external_type_specification]
pub struct ExAlgorithm(Algorithm);

#[verifier::external_type_specification]
pub struct ExVersion(Version);

/// Memory cost, in KiB blocks: 19 MiB.
pub const ARGON2_MEMORY_KIB: u32 = 19456;

/// Number of passes over the memory.
pub const ARGON2_ITERATIONS: u32 = 2;

/// Number of lanes.
pub const ARGON2_PARALLELISM: u32 = 1;

/// Why a password could not be hashed or checked.
#[derive(Debug, Clone)]
pub enum PasswordError {
    /// The key derivation refused its parameters or its input.
    HashError(String),
    /// The stored hash is not a hash that can be checked.
    InvalidHash(String),
    /// The stored hash is well formed but the password does not match it.
    VerificationFailed,
}

/// What checking `password` against the PHC string `phc` decides, by
/// `PasswordHash::new` and argon2's `PasswordVerifier::verify_password`:
/// `Some(true)` when the password matches, `Some(false)` when it does not, and
/// `None` when the string is not a hash that argon2 can check.
pub uninterp spec fn argon2_verdict(password: Seq<char>, phc: Seq<char>) -> Option<bool>;

/// The base64 text of the key that argon2 derives from `password` and the
/// salt written `salt`, with the named algorithm, version and costs.
pub uninterp spec fn argon2_key_text(
    algorithm: Seq<char>,
    version: nat,
    password: Seq<char>,
    salt: Seq<char>,
    m_cost: u32,
    t_cost: u32,
    p_cost: u32,
) -> Seq<char>;

/// A character of standard base64.
pub open spec fn is_b64_char(c: char) -> bool {
    ||| 'A' <= c && c <= 'Z'
    ||| 'a' <= c && c <= 'z'
    ||| '0' <= c && c <= '9'
    ||| c == '+'
    ||| c == '/'
}

/// Sixteen bytes in unpadded standard base64: 22 characters, the last of which
/// carries two bits and four zero bits.
pub open spec fn is_salt_text(s: Seq<char>) -> bool {
    &&& s.len() == 22
    &&& forall|i: int| 0 <= i < 22 ==> is_b64_char(#[trigger] s[i])
    &&& (s[21] == 'A' || s[21] == 'Q' || s[21] == 'g' || s[21] == 'w')
}

/// The identifier of an Argon2 variant in a PHC string.
pub open spec fn algorithm_ident(a: Algorithm) -> Seq<char> {
    match a {
        Algorithm::Argon2d => seq!['a', 'r', 'g', 'o', 'n', '2', 'd'],
        Algorithm::Argon2i => seq!['a', 'r', 'g', 'o', 'n', '2', 'i'],
        Algorithm::Argon2id => seq!['a', 'r', 'g', 'o', 'n', '2', 'i', 'd'],
    }
}

/// The number of an Argon2 version in a PHC string.
pub open spec fn version_number(v: Version) -> nat {
    match v {
        Version::V0x10 => 16,
        Version::V0x13 => 19,
    }
}

/// The PHC string `$<algorithm>$v=<version>$m=<m>,t=<t>,p=<p>$<salt>$<key>`.
pub open spec fn phc_string(
    algorithm: Seq<char>,
    version: nat,
    m_cost: u32,
    t_cost: u32,
    p_cost: u32,
    salt: Seq<char>,
    key: Seq<char>,
) -> Seq<char> {
    seq!['$'] + algorithm + seq!['$', 'v', '='] + decimal(version) + seq!['$', 'm', '=']
        + decimal(m_cost as nat) + seq![',', 't', '='] + decimal(t_cost as nat) + seq![',', 'p', '=']
        + decimal(p_cost as nat) + seq!['$'] + salt + seq!['$'] + key
}

/// The PHC string this library makes for `password` under `salt`: Argon2id,
/// version 19, with the library's costs.
pub open spec fn argon2id_phc(password: Seq<char>, salt: Seq<char>) -> Seq<char> {
    let id = algorithm_ident(Algorithm::Argon2id);
    let key = argon2_key_text(
        id,
        19,
        password,
        salt,
        ARGON2_MEMORY_KIB,
        ARGON2_ITERATIONS,
        ARGON2_PARALLELISM,
    );
    phc_string(id, 19, ARGON2_MEMORY_KIB, ARGON2_ITERATIONS, ARGON2_PARALLELISM, salt, key)
}

/// The start that every hash this library makes has.
pub open spec fn argon2id_prefix() -> Seq<char> {
    seq!['$'] + algorithm_ident(Algorithm::Argon2id) + seq!['$', 'v', '='] + decimal(19)
        + seq!['$', 'm', '='] + decimal(ARGON2_MEMORY_KIB as nat) + seq![',', 't', '=']
        + decimal(ARGON2_ITERATIONS as nat) + seq![',', 'p', '='] + decimal(ARGON2_PARALLELISM as nat)
        + seq!['$']
}

/// A password argon2 takes: at most 2^32 - 1 bytes of UTF-8.
pub open spec fn hashable(password: Seq<char>) -> bool {
    encode_utf8(password).len() <= u32::MAX
}

/// Relies on `SaltString::generate` with the operating system's random source
/// `OsRng`: 16 random bytes written in unpadded standard base64.
#[verifier::external_body]
fn random_salt() -> (r: String)
    ensures
        is_salt_text(r@),
{
    SaltString::generate(&mut password_hash::rand_core::OsRng).as_str().to_owned()
}

/// Relies on `Params::new` (which accepts these costs), `Salt::from_b64`
/// (which accepts such a salt), `Argon2::new`, `PasswordHasher::hash_password`
/// (which fails only on a password over 2^32 - 1 bytes), and the `Display` of
/// `PasswordHash`, which writes the PHC string. As the crate documents, the
/// string is accepted by `verify_password` for the same password; for any
/// other password argon2 can take, it decides a match or a mismatch.
#[verifier::external_body]
fn argon2_hash(
    algorithm: Algorithm,
    version: Version,
    m_cost: u32,
    t_cost: u32,
    p_cost: u32,
    password: &str,
    salt: &str,
) -> (r: Result<String, password_hash::Error>)
    requires
        8 <= m_cost,
        p_cost * 8 <= m_cost,
        1 <= t_cost,
        1 <= p_cost <= 0xFFFFFF,
        is_salt_text(salt@),
    ensures
        hashable(password@) ==> r is Ok,
        r matches Ok(h) ==> h@ == phc_string(
            algorithm_ident(algorithm),
            version_number(version),
            m_cost,
            t_cost,
            p_cost,
            salt@,
            argon2_key_text(algorithm_ident(algorithm), version_number(version), password@, salt@, m_cost, t_cost, p_cost),
        ),
        r matches Ok(h) ==> argon2_verdict(password@, h@) == Some(true),
        r matches Ok(h) ==> forall|q: Seq<char>| hashable(q) ==> (#[trigger] argon2_verdict(q, h@)) is Some,
{
    let params = Params::new(m_cost, t_cost, p_cost, None)?;
    let salt = password_hash::Salt::from_b64(salt)?;
    let hash = Argon2::new(algorithm, version, params).hash_password(password.as_bytes(), salt)?;
    Ok(hash.to_string())
}

/// Relies on `PasswordHash::new` to read `phc` and on
/// `Argon2::default().verify_password` to check `password` against it; the
/// latter fails with `Error::Password` when the password does not match.
#[verifier::external_body]
fn argon2_check(password: &str, phc: &str) -> (r: Result<bool, password_hash::Error>)
    ensures
        r matches Ok(ok) ==> argon2_verdict(password@, phc@) == Some(ok),
        r is Err ==> argon2_verdict(password@, phc@) is None,
{
    let verdict = password_hash::PasswordHash::new(phc)
        .and_then(|h| Argon2::default().verify_password(password.as_bytes(), &h));
    match verdict {
        Ok(()) => Ok(true),
        Err(password_hash::Error::Password) => Ok(false),
        Err(e) => Err(e),
    }
}

/// `r` is what hashing `password` may give: a hash that the password checks
/// against and that any password argon2 takes is checked against without
/// error, or `HashError`, which comes only for a password argon2 does not take.
pub open spec fn hash_outcome(password: Seq<char>, r: Result<String, PasswordError>) -> bool {
    match r {
        Ok(h) => {
            &&& argon2_verdict(password, h@) == Some(true)
            &&& forall|q: Seq<char>| hashable(q) ==> (#[trigger] argon2_verdict(q, h@)) is Some
        },
        Err(e) => e is HashError && !hashable(password),
    }
}

/// `r` is what checking `password` against `hash` gives.
pub open spec fn verify_outcome(password: Seq<char>, hash: Seq<char>, r: Result<(), PasswordError>) -> bool {
    match argon2_verdict(password, hash) {
        Some(true) => r is Ok,
        Some(false) => r matches Err(PasswordError::VerificationFailed),
        None => r matches Err(PasswordError::InvalidHash(_)),
    }
}

proof fn lemma_prefix_of_phc(password: Seq<char>, salt: Seq<char>)
    ensures
        argon2id_phc(password, salt).subrange(0, argon2id_prefix().len() as int) == argon2id_prefix(),
{
    let p = argon2id_prefix();
    let id = algorithm_ident(Algorithm::Argon2id);
    let key = argon2_key_text(id, 19, password, salt, ARGON2_MEMORY_KIB, ARGON2_ITERATIONS, ARGON2_PARALLELISM);
    assert(argon2id_phc(password, salt) =~= p + (salt + seq!['$'] + key));
    assert((p + (salt + seq!['$'] + key)).subrange(0, p.len() as int) =~= p);
}

proof fn lemma_prefix_text()
    ensures
        argon2id_prefix() == "$argon2id$v=19$m=19456,t=2,p=1$"@,
{
    reveal_with_fuel(decimal, 6);
    reveal_strlit("$argon2id$v=19$m=19456,t=2,p=1$");
    assert(decimal(19) =~= seq!['1', '9']);
    assert(decimal(19456) =~= seq!['1', '9', '4', '5', '6']);
    assert(decimal(2) =~= seq!['2']);
    assert(decimal(1) =~= seq!['1']);
    assert(argon2id_prefix() =~= "$argon2id$v=19$m=19456,t=2,p=1$"@);
}

/// Hashes `password` with Argon2id, version 19, 19 MiB of memory, 2 passes and
/// 1 lane, under a fresh random salt, and returns the PHC string. Only a
/// password over 2^32 - 1 bytes is refused.
pub fn hash_password(password: &str) -> (r: Result<String, PasswordError>)
    ensures
        hash_outcome(password@, r),
        hashable(password@) ==> r is Ok,
        r matches Ok(h) ==> exists|salt: Seq<char>| is_salt_text(salt) && h@ == argon2id_phc(password@, salt),
        r matches Ok(h) ==> h@.subrange(0, 31) == "$argon2id$v=19$m=19456,t=2,p=1$"@,
{
    let salt = random_salt();
    match argon2_hash(
        Algorithm::Argon2id,
        Version::V0x13,
        ARGON2_MEMORY_KIB,
        ARGON2_ITERATIONS,
        ARGON2_PARALLELISM,
        password,
        salt.as_str(),
    ) {
        Ok(hash) => {
            proof {
                lemma_prefix_of_phc(password@, salt@);
                lemma_prefix_text();
                reveal_strlit("$argon2id$v=19$m=19456,t=2,p=1$");
            }
            Ok(hash)
        },
        Err(e) => Err(PasswordError::HashError(e.to_string())),
    }
}

/// Checks `password` against the stored PHC string `hash`.
///
/// A hash that cannot be read or checked gives `InvalidHash`; a password that
/// does not match gives `VerificationFailed`.
pub fn verify_password(password: &str, hash: &str) -> (r: Result<(), PasswordError>)
    ensures
        verify_outcome(password@, hash@, r),
{
    match argon2_check(password, hash) {
        Ok(true) => Ok(()),
        Ok(false) => Err(PasswordError::VerificationFailed),
        Err(e) => Err(PasswordError::InvalidHash(e.to_string())),
    }
}

impl PasswordError {
    /// A sentence that describes the error.
    pub fn message(&self) -> (r: String)
        ensures
            self matches PasswordError::HashError(m) ==> r@ == "Failed to hash password: "@ + m@,
            self matches PasswordError::InvalidHash(m) ==> r@ == "Invalid password hash: "@ + m@,
            self is VerificationFailed ==> r@ == "Password does not match"@,
    {
        match self {
            PasswordError::HashError(m) => String::from_str("Failed to hash password: ").concat(m.as_str()),
            PasswordError::InvalidHash(m) => String::from_str("Invalid password hash: ").concat(m.as_str()),
            PasswordError::VerificationFailed => String::from_str("Password does not match"),
        }
    }
}

/// A hash made of a password is accepted when that same password is checked
/// against it.
pub proof fn lemma_hash_then_verify(
    password: Seq<char>,
    hashed: Result<String, PasswordError>,
    verified: Result<(), PasswordError>,
)
    requires
        hash_outcome(password, hashed),
        hashed matches Ok(h) && verify_outcome(password, h@, verified),
    ensures
        verified is Ok,
{
}

/// Checking any password that argon2 takes against a hash this library made
/// is a decision, a match or a rejection, and never an unreadable-hash error.
pub proof fn lemma_verify_against_own_hash_decides(
    password: Seq<char>,
    hashed: Result<String, PasswordError>,
    other: Seq<char>,
    verified: Result<(), PasswordError>,
)
    requires
        hash_outcome(password, hashed),
        hashable(other),
        hashed matches Ok(h) && verify_outcome(other, h@, verified),
    ensures
        verified is Ok || verified matches Err(PasswordError::VerificationFailed),
{
    let h = hashed->Ok_0;
    assert(argon2_verdict(other, h@) is Some);
}

} // verus!
