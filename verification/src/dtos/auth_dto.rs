//! Request and response bodies of the authentication routes.

use vstd::prelude::*;

verus! {

/// Body of a registration request.
#[derive(Debug, PartialEq, Eq)]
pub struct RegisterReqDto {
    pub email: String,
    pub username: String,
    pub password: String,
}

/// Body of a login request.
#[derive(Debug, PartialEq, Eq)]
pub struct LoginReqDto {
    pub email: String,
    pub password: String,
}

/// A pair of tokens as it is handed to the client.
#[derive(Debug, PartialEq, Eq)]
pub struct AuthResDto {
    pub access_token: String,
    pub token_type: String,
    pub refresh_token: String,
}

/// Body of a logout or refresh request.
#[derive(Debug, PartialEq, Eq)]
pub struct LogoutDto {
    pub refresh_token: String,
}

/// Body of an email-verification request.
#[derive(Debug, PartialEq, Eq)]
pub struct VerifyEmailDto {
    pub token: String,
    pub user_id: String,
}

/// Body of a request for a password-reset link.
#[derive(Debug, PartialEq, Eq)]
pub struct ReqResetPassLinkDto {
    pub email: String,
}

/// What an `AuthResDto` says.
pub struct TokenPair {
    pub access_token: Seq<char>,
    pub token_type: Seq<char>,
    pub refresh_token: Seq<char>,
}

impl View for AuthResDto {
    type V = TokenPair;

    open spec fn view(&self) -> TokenPair {
        TokenPair {
            access_token: self.access_token@,
            token_type: self.token_type@,
            refresh_token: self.refresh_token@,
        }
    }
}

impl TokenPair {
    /// The pair of bearer tokens made of the two texts.
    pub open spec fn bearer(access_token: Seq<char>, refresh_token: Seq<char>) -> TokenPair {
        TokenPair { access_token, token_type: "Bearer"@, refresh_token }
    }
}

impl AuthResDto {
    /// The pair of bearer tokens made of the two texts.
    pub fn new(access_token: String, refresh_token: String) -> (pair: AuthResDto)
        ensures
            pair@ == TokenPair::bearer(access_token@, refresh_token@),
    {
        AuthResDto { access_token, token_type: "Bearer".to_owned(), refresh_token }
    }
}

} // verus!
