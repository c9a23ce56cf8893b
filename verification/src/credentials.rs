//! Passwords: checking one against the hash that is stored for a user, and making the hash
//! that is stored for a new user.

use argon2::password_hash::SaltString;
use argon2::{Argon2, Params, PasswordHash, PasswordHasher, PasswordVerifier};
use vstd::prelude::*;

use crate::decimal::{digits_exceed, spec_digits_exceed};
use crate::errors::{ErrorKind, HttpError};

verus! {

/// Memory that a password hash is computed in, in KiB.
pub const ARGON2_MEMORY_COST: u32 = 20000;

/// Number of passes over the memory.
pub const ARGON2_TIME_COST: u32 = 3;

/// Number of lanes.
pub const ARGON2_PARALLELISM: u32 = 3;

/// Length of the hash in bytes.
pub const ARGON2_OUTPUT_LENGTH: usize = 64;

/// The most lanes that a stored hash may name: the most whose eightfold fits 32 bits.
pub const ARGON2_MAX_PARALLELISM: u32 = 0x1fff_ffff;

/// The most memory that a hash may name, in KiB: 4 GiB.
pub const ARGON2_MAX_MEMORY_COST: u32 = 0x40_0000;

/// The parameters that a stored hash names, each with its name and its value as they stand
/// in the text, in their order, as `argon2::PasswordHash::new` reads them; `None` where it
/// does not read the text as a hash.
pub uninterp spec fn stored_parameters(stored_hash: Seq<char>) -> Option<
    Seq<(Seq<char>, Seq<char>)>,
>;

/// Reads the parameters that a stored hash names.
///
/// Calls `argon2::PasswordHash::new` on the text and walks the `params` of the hash with
/// `iter`, taking each name and each value as the text it is. The outcome depends on the
/// stored hash alone, and the contract gives it a name.
#[verifier::external_body]
fn hash_parameters(stored_hash: &str) -> (r: Option<Vec<(String, String)>>)
    ensures
        r.deep_view() == stored_parameters(stored_hash@),
{
    let hash = PasswordHash::new(stored_hash).ok()?;
    let text = |(name, value): (argon2::password_hash::Ident, argon2::password_hash::Value)| {
        (name.as_str().to_string(), value.as_str().to_string())
    };
    Some(hash.params.iter().map(text).collect())
}

/// No parameter of the given name has a value that is a number above the bound.
pub open spec fn spec_cost_fits(
    parameters: Seq<(Seq<char>, Seq<char>)>,
    name: Seq<char>,
    bound: nat,
) -> bool {
    forall|i: int|
        0 <= i < parameters.len() ==> !((#[trigger] parameters[i]).0 == name
            && spec_digits_exceed(parameters[i].1, bound))
}

/// The costs that a stored hash names are in range: no more lanes than
/// `ARGON2_MAX_PARALLELISM` and no more memory than `ARGON2_MAX_MEMORY_COST`, wherever the
/// hash names lanes (`p`) or memory (`m`).
pub open spec fn spec_costs_fit(parameters: Seq<(Seq<char>, Seq<char>)>) -> bool {
    &&& spec_cost_fits(parameters, "p"@, ARGON2_MAX_PARALLELISM as nat)
    &&& spec_cost_fits(parameters, "m"@, ARGON2_MAX_MEMORY_COST as nat)
}

fn cost_fits(parameters: &Vec<(String, String)>, name: &str, bound: u32) -> (r: bool)
    ensures
        r == spec_cost_fits(parameters.deep_view(), name@, bound as nat),
{
    let wanted = name.to_owned();
    let mut i: usize = 0;
    while i < parameters.len()
        invariant
            i <= parameters.len(),
            wanted@ == name@,
            forall|k: int|
                0 <= k < i ==> !((#[trigger] parameters.deep_view()[k]).0 == name@
                    && spec_digits_exceed(parameters.deep_view()[k].1, bound as nat)),
        decreases parameters.len() - i,
    {
        assert(parameters.deep_view()[i as int] == (
            parameters@[i as int].0@,
            parameters@[i as int].1@,
        ));
        if parameters[i].0 == wanted && digits_exceed(parameters[i].1.as_str(), bound) {
            return false;
        }
        i += 1;
    }
    true
}

/// Whether the costs that a stored hash names are in range.
pub fn costs_fit(parameters: &Vec<(String, String)>) -> (r: bool)
    ensures
        r == spec_costs_fit(parameters.deep_view()),
{
    cost_fits(parameters, "p", ARGON2_MAX_PARALLELISM) && cost_fits(
        parameters,
        "m",
        ARGON2_MAX_MEMORY_COST,
    )
}

/// Whether a password matches a stored hash under a pepper, as the `argon2` crate finds it
/// with a context of the given costs; `None` where the stored hash does not parse or the
/// context cannot be made.
pub uninterp spec fn password_check(
    password: Seq<char>,
    stored_hash: Seq<char>,
    pepper: Seq<char>,
    memory_cost: u32,
    time_cost: u32,
    parallelism: u32,
    output_length: usize,
) -> Option<bool>;

/// Checks a password against a stored hash.
///
/// Calls `argon2::PasswordHash::new` on the stored hash, `argon2::Params::new` and
/// `argon2::Argon2::new_with_secret` with Argon2id, version 0x13 and the pepper as the
/// secret, and `verify_password` on the context. The password is hashed again with the salt
/// and the costs that the stored hash names, and the two are compared, so the outcome
/// depends on the arguments alone and the contract gives it a name. An error of the first
/// three calls comes back as its words; an error of the last means that the password does
/// not match. Lane counts whose eightfold does not fit 32 bits are left out, both the one
/// handed over and any that the stored hash names: the crate multiplies before it checks,
/// and it makes its parameters anew from the stored hash. Left out as well is a stored hash
/// that names more memory than 4 GiB, which the crate would set out to find.
#[verifier::external_body]
fn check_password(
    password: &str,
    stored_hash: &str,
    pepper: &str,
    memory_cost: u32,
    time_cost: u32,
    parallelism: u32,
    output_length: usize,
) -> (r: Result<bool, String>)
    requires
        parallelism * 8 <= u32::MAX,
        stored_parameters(stored_hash@) matches Some(parameters) ==> spec_costs_fit(parameters),
    ensures
        match r {
            Ok(matches) => password_check(
                password@,
                stored_hash@,
                pepper@,
                memory_cost,
                time_cost,
                parallelism,
                output_length,
            ) == Some(matches),
            Err(_) => password_check(
                password@,
                stored_hash@,
                pepper@,
                memory_cost,
                time_cost,
                parallelism,
                output_length,
            ) is None,
        },
{
    let parsed = PasswordHash::new(stored_hash).map_err(|e| e.to_string())?;
    let params = Params::new(memory_cost, time_cost, parallelism, Some(output_length))
        .map_err(|e| e.to_string())?;
    let secret = pepper.as_bytes();
    let (algorithm, version) = (argon2::Algorithm::Argon2id, argon2::Version::V0x13);
    let context = Argon2::new_with_secret(secret, algorithm, version, params)
        .map_err(|e| e.to_string())?;
    Ok(context.verify_password(password.as_bytes(), &parsed).is_ok())
}

/// Hashes a password with a fresh random salt.
///
/// Calls `argon2::password_hash::SaltString::generate` with the operating system's random
/// number generator, makes the context as `check_password` does, and calls `hash_password`
/// on it. The salt is chance, so nothing is claimed of the hash. Memory costs above 4 GiB
/// are left out, which no machine is asked to find.
#[verifier::external_body]
fn salt_and_hash(
    password: &str,
    pepper: &str,
    memory_cost: u32,
    time_cost: u32,
    parallelism: u32,
    output_length: usize,
) -> (r: Result<String, String>)
    requires
        parallelism * 8 <= u32::MAX,
        memory_cost <= ARGON2_MAX_MEMORY_COST,
{
    let salt = SaltString::generate(&mut rand_core::OsRng);
    let params = Params::new(memory_cost, time_cost, parallelism, Some(output_length))
        .map_err(|e| e.to_string())?;
    let secret = pepper.as_bytes();
    let (algorithm, version) = (argon2::Algorithm::Argon2id, argon2::Version::V0x13);
    let context = Argon2::new_with_secret(secret, algorithm, version, params)
        .map_err(|e| e.to_string())?;
    let hash = context.hash_password(password.as_bytes(), &salt).map_err(|e| e.to_string())?;
    Ok(hash.to_string())
}

/// Whether a password matches a stored hash under a pepper, with the costs of this backend.
pub open spec fn spec_password_matches(
    password: Seq<char>,
    stored_hash: Seq<char>,
    pepper: Seq<char>,
) -> Option<bool> {
    password_check(
        password,
        stored_hash,
        pepper,
        ARGON2_MEMORY_COST,
        ARGON2_TIME_COST,
        ARGON2_PARALLELISM,
        ARGON2_OUTPUT_LENGTH,
    )
}

/// What a sign-in makes of a password check: a password that matches lets it go on, one
/// that does not is incorrect, and a check that could not be made is an internal error.
pub open spec fn spec_judge_password(checked: Option<bool>) -> Result<(), ErrorKind> {
    match checked {
        Some(true) => Ok(()),
        Some(false) => Err(ErrorKind::IncorrectPassword),
        None => Err(ErrorKind::InternalServerError),
    }
}

/// What stands for a result when only the kind of the error matters.
pub open spec fn kind_view(result: Result<(), HttpError>) -> Result<(), ErrorKind> {
    match result {
        Ok(_) => Ok(()),
        Err(e) => Err(e.kind()),
    }
}

/// What stands for a check when only its outcome matters.
pub open spec fn checked_view(checked: Result<bool, String>) -> Option<bool> {
    match checked {
        Ok(matches) => Some(matches),
        Err(_) => None,
    }
}

/// Turns the outcome of a password check into the way the sign-in goes on.
pub fn judge_password(checked: Result<bool, String>) -> (r: Result<(), HttpError>)
    ensures
        kind_view(r) == spec_judge_password(checked_view(checked)),
        r matches Err(HttpError::InternalServerError { cause }) ==> checked == Err::<bool, String>(
            cause,
        ),
{
    match checked {
        Ok(true) => Ok(()),
        Ok(false) => Err(HttpError::IncorrectPassword),
        Err(cause) => Err(HttpError::InternalServerError { cause }),
    }
}

/// What checking a password against a stored hash gives. A stored hash that names costs out
/// of range is an internal error, and is not hashed with. Otherwise a password that matches
/// is accepted, one that does not is incorrect, and a check that cannot be made, as of a
/// stored hash that is no hash, is an internal error.
pub open spec fn spec_verify_password(
    password: Seq<char>,
    stored_hash: Seq<char>,
    pepper: Seq<char>,
) -> Result<(), ErrorKind> {
    match stored_parameters(stored_hash) {
        Some(parameters) => if spec_costs_fit(parameters) {
            spec_judge_password(spec_password_matches(password, stored_hash, pepper))
        } else {
            Err(ErrorKind::InternalServerError)
        },
        None => spec_judge_password(spec_password_matches(password, stored_hash, pepper)),
    }
}

/// Checks the password that a user gave against the hash that is stored for the user.
pub fn verify_password(password: &str, stored_hash: &str, pepper: &str) -> (r: Result<
    (),
    HttpError,
>)
    ensures
        kind_view(r) == spec_verify_password(password@, stored_hash@, pepper@),
{
    match hash_parameters(stored_hash) {
        Some(parameters) => {
            if !costs_fit(&parameters) {
                return Err(
                    HttpError::internal("the stored password hash names costs out of range"),
                );
            }
        },
        None => {},
    }
    judge_password(
        check_password(
            password,
            stored_hash,
            pepper,
            ARGON2_MEMORY_COST,
            ARGON2_TIME_COST,
            ARGON2_PARALLELISM,
            ARGON2_OUTPUT_LENGTH,
        ),
    )
}

/// Hands a fresh hash on if the password checks against it, and fails otherwise: a hash
/// that would lock its owner out is never stored.
pub fn confirm_hash(password: &str, pepper: &str, hashed: Result<String, String>) -> (r: Result<
    String,
    HttpError,
>)
    ensures
        match r {
            Ok(hash) => hashed == Ok::<String, String>(hash) && spec_verify_password(
                password@,
                hash@,
                pepper@,
            ) is Ok,
            Err(e) => e.kind() == ErrorKind::InternalServerError && (hashed matches Ok(hash)
                ==> spec_verify_password(password@, hash@, pepper@) is Err),
        },
{
    match hashed {
        Ok(hash) => match verify_password(password, hash.as_str(), pepper) {
            Ok(_) => Ok(hash),
            Err(_) => Err(HttpError::internal("the new password hash does not verify")),
        },
        Err(cause) => Err(HttpError::InternalServerError { cause }),
    }
}

/// Makes the hash that is stored for a new user's password. The hash that comes back is
/// one that the password checks against.
pub fn hash_password(password: &str, pepper: &str) -> (r: Result<String, HttpError>)
    ensures
        match r {
            Ok(hash) => spec_verify_password(password@, hash@, pepper@) is Ok,
            Err(e) => e.kind() == ErrorKind::InternalServerError,
        },
{
    let hashed = salt_and_hash(
        password,
        pepper,
        ARGON2_MEMORY_COST,
        ARGON2_TIME_COST,
        ARGON2_PARALLELISM,
        ARGON2_OUTPUT_LENGTH,
    );
    confirm_hash(password, pepper, hashed)
}

} // verus!
