//! Errors of the scraper.
use vstd::prelude::*;

verus! {

/// Why a step of the scraper failed.
#[derive(Debug)]
pub enum Error {
    /// The login was refused: the HTTP status of the answer and its body.
    Auth(u16, String),
    /// A date sent by the API could not be read.
    Date(chrono::ParseError),
    /// The websocket kept sending messages that are not debate data.
    WebsocketTryOut,
}

/// The outcome of a step of the scraper.
pub type Result<T> = core::result::Result<T, Error>;

/// Whether an HTTP status code reports a success (the range `200..=299`).
pub open spec fn is_success(status: u16) -> bool {
    200 <= status <= 299
}

/// Decides the outcome of a login from the answer of the authentication
/// endpoint: its status code, the `token` string field of its JSON body, if
/// there is one, and the body itself.
///
/// The login succeeds with the token exactly when the status reports a success
/// and the body holds a token; otherwise it fails with the status and the body.
pub fn login_outcome(status: u16, token: Option<String>, body: String) -> (r: Result<String>)
    ensures
        is_success(status) && token is Some ==> r == Ok::<String, Error>(token.unwrap()),
        !(is_success(status) && token is Some) ==> r == Err::<String, Error>(Error::Auth(status, body)),
{
    if !(200 <= status && status <= 299) {
        return Err(Error::Auth(status, body));
    }
    match token {
        Some(token) => Ok(token),
        None => Err(Error::Auth(status, body)),
    }
}

} // verus!
