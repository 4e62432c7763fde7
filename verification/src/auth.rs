//! The access token of the metering portal: what is sent to obtain one, what
//! comes back, and which token a fetch cycle uses.

use vstd::prelude::*;

verus! {

/// What is sent to obtain an access token.
#[derive(Debug)]
pub struct TokenRequest {
    /// The name of the user.
    pub username: String,
    /// The password of the user.
    pub password: String,
}

/// What comes back for a [`TokenRequest`].
#[derive(Debug)]
pub struct TokenResponse {
    /// The status that the token service reports.
    pub status: String,
    /// What the token service says of a failure.
    pub message: Option<String>,
    /// The access token, where one was issued.
    pub access_token: Option<String>,
}

/// The token that a cycle uses: the configured one where no user is
/// configured; else the one that was issued to the user, and none where the
/// request failed or no token was issued.
pub open spec fn chosen_token(
    configured: Seq<char>,
    username: Seq<char>,
    fetched: Option<TokenResponse>,
) -> Option<Seq<char>> {
    if username.len() == 0 {
        Some(configured)
    } else {
        match fetched {
            Some(response) => match response.access_token {
                Some(token) => Some(token@),
                None => None,
            },
            None => None,
        }
    }
}

impl TokenRequest {
    /// The request for a token for `username`.
    pub fn new(username: &str, password: &str) -> (request: TokenRequest)
        ensures
            request.username@ == username@,
            request.password@ == password@,
    {
        TokenRequest { username: username.to_owned(), password: password.to_owned() }
    }
}

/// Whether a token has to be requested before data is fetched: whether a
/// user is configured. The credentials of a user take precedence over a
/// configured token.
pub fn needs_token(username: &str) -> (needed: bool)
    ensures
        needed == (username@.len() != 0),
{
    !username.is_empty()
}

/// Chooses the token that a cycle uses. `fetched` is what the token service
/// answered, `None` where the request failed or none was made. `None` means
/// that the cycle cannot go on.
pub fn choose_access_token(configured: String, username: &str, fetched: Option<TokenResponse>) -> (token:
    Option<String>)
    ensures
        match token {
            Some(chosen) => chosen_token(configured@, username@, fetched) == Some(chosen@),
            None => chosen_token(configured@, username@, fetched) is None,
        },
{
    if !needs_token(username) {
        return Some(configured);
    }
    match fetched {
        Some(response) => response.access_token,
        None => None,
    }
}

} // verus!
