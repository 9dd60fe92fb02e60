use vstd::prelude::*;

use vstd::string::StringSliceAdditionalSpecFns;

use crate::error::AuthError;

verus! {

/// The Argon2 digest of `pwd` under `salt`, `len` bytes long, with the
/// library's default cost parameters.
pub uninterp spec fn argon2_digest(pwd: Seq<u8>, salt: Seq<u8>, len: nat) -> Seq<u8>;

#[verifier::external_type_specification]
#[verifier::external_body]
pub struct ExArgon2Error(argon2::Error);

/// Length in bytes of a credential hash.
pub const HASH_LEN: usize = 32;

/// The lengths that the hashing primitive accepts for a password and a salt.
pub open spec fn argon2_inputs_ok(pwd: Seq<u8>, salt: Seq<u8>) -> bool {
    pwd.len() <= 0xFFFF_FFFF && 8 <= salt.len() <= 0xFFFF_FFFF
}

/// Relies on argon2::hash_raw with Config::default(): the configuration's
/// cost parameters are valid, so it fails only on a password or salt whose
/// length is out of range, and otherwise returns the 32-byte digest.
#[verifier::external_body]
fn argon2_hash_raw(pwd: &[u8], salt: &[u8]) -> (r: Result<Vec<u8>, argon2::Error>)
    ensures
        r is Ok <==> argon2_inputs_ok(pwd@, salt@),
        r matches Ok(h) ==> h@.len() == HASH_LEN && h@ == argon2_digest(pwd@, salt@, HASH_LEN as nat),
{
    argon2::hash_raw(pwd, salt, &argon2::Config::default())
}

/// Relies on argon2::verify_raw with Config::default(): it recomputes the
/// digest at the length of `expected` and compares the two; it fails on the
/// same lengths as hash_raw and on a hash shorter than four bytes.
#[verifier::external_body]
fn argon2_verify_raw(pwd: &[u8], salt: &[u8], expected: &[u8]) -> (r: Result<bool, argon2::Error>)
    requires
        expected@.len() <= 0xFFFF_FFFF,
    ensures
        r is Ok <==> (argon2_inputs_ok(pwd@, salt@) && 4 <= expected@.len()),
        r is Ok ==> r->Ok_0 == (expected@ == argon2_digest(pwd@, salt@, expected@.len())),
{
    argon2::verify_raw(pwd, salt, expected, &argon2::Config::default())
}

/// The value of one hexadecimal digit, in either case.
pub open spec fn hex_digit(c: char) -> Option<int> {
    if '0' <= c && c <= '9' {
        Some(c as int - '0' as int)
    } else if 'a' <= c && c <= 'f' {
        Some(c as int - 'a' as int + 10)
    } else if 'A' <= c && c <= 'F' {
        Some(c as int - 'A' as int + 10)
    } else {
        None
    }
}

/// `s` is an even number of hexadecimal digits.
pub open spec fn is_hex(s: Seq<char>) -> bool {
    s.len() % 2 == 0 && forall|i: int| 0 <= i < s.len() ==> (#[trigger] hex_digit(s[i])) is Some
}

/// The bytes that the digit pairs of `s` spell, high digit first.
pub open spec fn hex_bytes(s: Seq<char>) -> Seq<u8> {
    Seq::new(
        s.len() / 2,
        |i: int| (16 * hex_digit(s[2 * i])->0 + hex_digit(s[2 * i + 1])->0) as u8,
    )
}

/// Relies on hex::decode: it accepts exactly an even number of hexadecimal
/// digits of either case and returns the byte of each pair.
#[verifier::external_body]
fn decode_hex(s: &str) -> (r: Option<Vec<u8>>)
    ensures
        r is Some <==> is_hex(s@),
        r matches Some(b) ==> b@ == hex_bytes(s@),
{
    hex::decode(s).ok()
}

/// Decodes salt material written as hexadecimal; `None` when `hex` is not
/// an even number of hexadecimal digits.
pub fn hex_to_bytes(hex: &str) -> (r: Option<Vec<u8>>)
    ensures
        r is Some <==> is_hex(hex@),
        r matches Some(b) ==> b@ == hex_bytes(hex@),
{
    decode_hex(hex)
}

/// `stored` is what `hash` returns for the password bytes `pwd` under `salt`.
pub open spec fn hash_returns(pwd: Seq<u8>, salt: Seq<u8>, stored: Seq<u8>) -> bool {
    argon2_inputs_ok(pwd, salt) && stored.len() == HASH_LEN && stored == argon2_digest(
        pwd,
        salt,
        HASH_LEN as nat,
    )
}

/// What `check` answers for a stored hash, password bytes and salt.
pub open spec fn check_result(stored: Seq<u8>, pwd: Seq<u8>, salt: Seq<u8>) -> Result<
    bool,
    AuthError,
> {
    if argon2_inputs_ok(pwd, salt) && 4 <= stored.len() <= 0xFFFF_FFFF {
        Ok(stored == argon2_digest(pwd, salt, stored.len()))
    } else {
        Err(AuthError::Hashing)
    }
}

/// Hashes `password` under the process-wide `salt`. The result depends on
/// the password and the salt alone.
pub fn hash(password: &str, salt: &[u8]) -> (r: Result<Vec<u8>, AuthError>)
    ensures
        r is Ok <==> argon2_inputs_ok(password.spec_bytes(), salt@),
        r matches Ok(h) ==> hash_returns(password.spec_bytes(), salt@, h@),
        r matches Err(e) ==> e == AuthError::Hashing,
{
    match argon2_hash_raw(password.as_bytes(), salt) {
        Ok(h) => Ok(h),
        Err(_) => Err(AuthError::Hashing),
    }
}

/// Whether `password` matches `password_hash` under `salt`. A wrong
/// password is `Ok(false)`; a malformed hash is an error.
pub fn check(password_hash: &[u8], password: &str, salt: &[u8]) -> (r: Result<bool, AuthError>)
    ensures
        r == check_result(password_hash@, password.spec_bytes(), salt@),
{
    if password_hash.len() > 0xFFFF_FFFF {
        return Err(AuthError::Hashing);
    }
    match argon2_verify_raw(password.as_bytes(), salt, password_hash) {
        Ok(b) => Ok(b),
        Err(_) => Err(AuthError::Hashing),
    }
}

/// The outcome of a login attempt: the stored hash of the named user, if
/// there is such a user, checked against the presented password.
pub open spec fn login_result(stored: Option<Seq<u8>>, pwd: Seq<u8>, salt: Seq<u8>) -> Result<
    (),
    AuthError,
> {
    match stored {
        None => Err(AuthError::Unauthenticated),
        Some(h) => match check_result(h, pwd, salt) {
            Ok(true) => Ok(()),
            Ok(false) => Err(AuthError::Unauthenticated),
            Err(e) => Err(e),
        },
    }
}

/// Checks a login attempt. An unknown user and a wrong password fail alike
/// with `Unauthenticated`, so the caller cannot tell them apart.
pub fn login_check(stored_hash: Option<&Vec<u8>>, password: &str, salt: &[u8]) -> (r: Result<
    (),
    AuthError,
>)
    ensures
        r == login_result(
            match stored_hash {
                Some(h) => Some(h@),
                None => None,
            },
            password.spec_bytes(),
            salt@,
        ),
{
    match stored_hash {
        None => Err(AuthError::Unauthenticated),
        Some(h) => match check(h.as_slice(), password, salt) {
            Ok(true) => Ok(()),
            Ok(false) => Err(AuthError::Unauthenticated),
            Err(e) => Err(e),
        },
    }
}

/// A hash produced for a password is accepted by `check` for that same
/// password and salt.
pub proof fn law_hash_then_check(pwd: Seq<u8>, salt: Seq<u8>, stored: Seq<u8>)
    requires
        hash_returns(pwd, salt, stored),
    ensures
        check_result(stored, pwd, salt) == Ok::<bool, AuthError>(true),
{
}

/// Hashing is deterministic: two hashes of one password under one salt are
/// the same bytes.
pub proof fn law_hash_deterministic(pwd: Seq<u8>, salt: Seq<u8>, h1: Seq<u8>, h2: Seq<u8>)
    requires
        hash_returns(pwd, salt, h1),
        hash_returns(pwd, salt, h2),
    ensures
        h1 == h2,
{
}

} // verus!
