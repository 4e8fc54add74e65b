//! The secret that session authentication is configured with.
use vstd::prelude::*;
use vstd::string::*;
use vstd::utf8::encode_utf8;

use crate::error::{plain_error, Error, ErrorCode};

verus! {

/// The secret in use: the command-line argument when given, else the
/// environment's value.
pub open spec fn chosen_secret(arg: Option<String>, env: Option<String>) -> Option<String> {
    match arg {
        Some(s) => Some(s),
        None => env,
    }
}

/// The message when no secret is given.
pub open spec fn missing_secret_message() -> Seq<char> {
    "auth enabled but no secret provided (--auth-secret or THEMQL_AUTH_SECRET)"@
}

/// The message when the secret is shorter than 32 bytes.
pub open spec fn short_secret_message() -> Seq<char> {
    "auth secret must be at least 32 characters"@
}

/// The secret for session authentication, from the `--auth-secret`
/// argument `arg` or else the `THEMQL_AUTH_SECRET` value `env`: a
/// validation error when neither is given or when the secret is shorter
/// than 32 bytes.
pub fn auth_secret(arg: Option<String>, env: Option<String>) -> (r: Result<String, Error>)
    ensures
        match chosen_secret(arg, env) {
            None => r matches Err(e) && plain_error(
                e,
                ErrorCode::ValidationError,
                missing_secret_message(),
            ),
            Some(s) => if encode_utf8(s@).len() < 32 {
                r matches Err(e) && plain_error(e, ErrorCode::ValidationError, short_secret_message())
            } else {
                r == Ok::<String, Error>(s)
            },
        },
{
    let secret = match arg {
        Some(s) => s,
        None => match env {
            Some(s) => s,
            None => {
                proof {
                    reveal_strlit(
                        "auth enabled but no secret provided (--auth-secret or THEMQL_AUTH_SECRET)",
                    );
                }
                return Err(
                    Error::validation_error(
                        "auth enabled but no secret provided (--auth-secret or THEMQL_AUTH_SECRET)",
                    ),
                );
            },
        },
    };
    if secret.as_str().as_bytes().len() < 32 {
        proof {
            reveal_strlit("auth secret must be at least 32 characters");
        }
        return Err(Error::validation_error("auth secret must be at least 32 characters"));
    }
    Ok(secret)
}

} // verus!
