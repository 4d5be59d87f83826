//! The credential gate guarding the administrative routes.
//!
//! `check_header` reads the authorization header, compares what it
//! carries with the configured user id and password, and yields
//! authorization or a challenge naming a realm. A header that fails to
//! parse as basic-auth credentials counts as wrong credentials: the
//! request fails, nothing panics.

use vstd::prelude::*;
use vstd::string::StringExecFns;
use crate::errors::Error;
use crate::errors::ErrorKindV;
use crate::errors::ErrorV;
use crate::response::STATUS_UNAUTHORIZED;

verus! {

/// The user id and password pair parsed out of a Basic authorization
/// header, if the header parses at all. The parse is a function of the
/// header text alone.
pub uninterp spec fn basic_credentials_of(header: Seq<char>) -> Option<(Seq<char>, Seq<char>)>;

/// Relies on `http_auth_basic::Credentials::from_header`: RFC 7617
/// decoding of a `Basic` authorization header value into a user id and a
/// password. Deterministic, so the outcome is a function of the header.
#[verifier::external_body]
fn parse_basic_credentials(header: &String) -> (r: Option<(String, String)>)
    ensures
        match r {
            Some(c) => basic_credentials_of(header@) == Some((c.0@, c.1@)),
            None => basic_credentials_of(header@) is None,
        },
{
    match http_auth_basic::Credentials::from_header(header.clone()) {
        Ok(c) => Some((c.user_id, c.password)),
        Err(_) => None,
    }
}

/// The configured administrative credentials.
pub struct AuthConfig {
    pub user_id: String,
    pub password: String,
}

/// The realm prompting a client that sent no credentials at all.
pub open spec fn login_realm() -> Seq<char> {
    "Login to access the management UI"@
}

/// The realm replacing a challenge after wrong or unparseable
/// credentials.
pub open spec fn invalid_realm() -> Seq<char> {
    "Invalid username or password"@
}

/// The challenge failure for a given realm.
pub open spec fn challenge_error(realm: Seq<char>) -> ErrorV {
    ErrorV {
        kind: ErrorKindV::Authentication { realm: realm },
        status: STATUS_UNAUTHORIZED as int,
        log: None,
    }
}

/// The acceptance rule applied to decoded credentials.
pub open spec fn credentials_authorized(
    c: Option<(Seq<char>, Seq<char>)>,
    user_id: Seq<char>,
    password: Seq<char>,
) -> bool {
    match c {
        Some(p) => p.0 == user_id || p.1 == password,
        None => false,
    }
}

/// Check the HTTP Basic Auth header against the configured credentials.
/// A missing header and a failing one both yield a challenge naming a
/// realm; only the realm differs.
pub fn check_header(header: &Option<String>, config: &AuthConfig) -> (r: Result<(), Error>)
    ensures
        match header {
            None => r matches Err(e) && e@ == challenge_error(login_realm()),
            Some(h) => {
                if credentials_authorized(
                    basic_credentials_of(h@),
                    config.user_id@,
                    config.password@,
                ) {
                    r is Ok
                } else {
                    r matches Err(e) && e@ == challenge_error(invalid_realm())
                }
            },
        },
{
    match header {
        Some(h) => {
            match parse_basic_credentials(h) {
                Some((user_id, password)) => {
                    if user_id == config.user_id || password == config.password {
                        Ok(())
                    } else {
                        Err(
                            Error::authentication(
                                String::from_str("Invalid username or password"),
                            ),
                        )
                    }
                },
                None => Err(
                    Error::authentication(String::from_str("Invalid username or password")),
                ),
            }
        },
        None => Err(
            Error::authentication(String::from_str("Login to access the management UI")),
        ),
    }
}

} // verus!
