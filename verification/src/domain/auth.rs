//! Login and session contracts of the authentication service.
use vstd::prelude::*;

use crate::text::{is_blank, is_blank_seq};

verus! {

#[derive(Debug, PartialEq, Eq)]
pub struct LoginRequest {
    pub username: String,
    pub password: String,
}

impl Clone for LoginRequest {
    fn clone(&self) -> (r: Self)
        ensures
            r == *self,
    {
        LoginRequest { username: self.username.clone(), password: self.password.clone() }
    }
}

#[derive(Debug, PartialEq, Eq)]
pub struct UserInformation {
    pub realname: String,
    pub phone: String,
    pub username: String,
    pub uid: String,
}

impl Clone for UserInformation {
    fn clone(&self) -> (r: Self)
        ensures
            r == *self,
    {
        UserInformation {
            realname: self.realname.clone(),
            phone: self.phone.clone(),
            username: self.username.clone(),
            uid: self.uid.clone(),
        }
    }
}

/// What the authentication logic reads of a token's `refreshToken` JSON value:
/// a bare string, or an object with an optional string `value` member, or anything else.
#[derive(Debug, Clone, PartialEq, Eq)]
pub enum RefreshToken {
    Text(String),
    Object { value: Option<String> },
    Other,
}

#[derive(Debug, Clone, PartialEq, Eq)]
pub struct AccessToken {
    pub additional_information: UserInformation,
    pub expiration: i64,
    pub expires_in: i64,
    pub refresh_token: RefreshToken,
    pub scope: Vec<String>,
    pub token_type: String,
    pub value: String,
}

/// The usable refresh token: the bare string, else the object's `value` member,
/// provided the chosen text is not blank.
pub open spec fn refresh_token_text(token: RefreshToken) -> Option<Seq<char>> {
    match token {
        RefreshToken::Text(text) => if is_blank_seq(text@) {
            None
        } else {
            Some(text@)
        },
        RefreshToken::Object { value: Some(text) } => if is_blank_seq(text@) {
            None
        } else {
            Some(text@)
        },
        _ => None,
    }
}

impl AccessToken {
    pub fn refresh_token_value(&self) -> (r: Option<&str>)
        ensures
            r matches Some(text) ==> refresh_token_text(self.refresh_token) == Some(text@),
            r is None ==> refresh_token_text(self.refresh_token) is None,
    {
        let candidate: Option<&str> = match &self.refresh_token {
            RefreshToken::Text(text) => Some(text.as_str()),
            RefreshToken::Object { value: Some(text) } => Some(text.as_str()),
            _ => None,
        };
        match candidate {
            Some(text) => if is_blank(text) {
                None
            } else {
                Some(text)
            },
            None => None,
        }
    }
}

/// Timestamps above this bound are taken to be in milliseconds.
pub const MILLISECOND_TIMESTAMP_THRESHOLD: i64 = 100_000_000_000;

/// A token expiry in seconds, whether the service sent seconds or milliseconds.
pub open spec fn unix_seconds(value: i64) -> int {
    if value > MILLISECOND_TIMESTAMP_THRESHOLD {
        value as int / 1000
    } else {
        value as int
    }
}

/// An expiry above 100,000,000,000 is in milliseconds and becomes the whole seconds it holds:
/// the result times 1000 is at most the value, and the next second past it is beyond the
/// value. An expiry at or below that bound is already in seconds and is kept.
pub proof fn lemma_unix_seconds_from_milliseconds(value: i64)
    ensures
        value > 100_000_000_000 ==> unix_seconds(value) * 1000 <= value < (unix_seconds(value)
            + 1) * 1000,
        value <= 100_000_000_000 ==> unix_seconds(value) == value,
{
    if value > 100_000_000_000 {
        let s = unix_seconds(value);
        assert(s == value as int / 1000);
        assert(s * 1000 <= value < (s + 1) * 1000) by (nonlinear_arith)
            requires
                s == value as int / 1000,
                value > 0,
        ;
    }
}

pub fn normalize_unix_seconds(value: i64) -> (r: i64)
    ensures
        r == unix_seconds(value),
{
    if value > MILLISECOND_TIMESTAMP_THRESHOLD {
        value / 1000
    } else {
        value
    }
}

#[derive(Debug, PartialEq, Eq)]
pub struct LoginData {
    pub additional_information: AccessToken,
}

#[derive(Debug, PartialEq, Eq)]
pub struct LoginResponse {
    pub data: Option<LoginData>,
    pub errcode: String,
    pub errmsg: String,
}

#[derive(Debug, PartialEq, Eq)]
pub struct RefreshTokenRequest {
    pub refresh_token: String,
}

#[derive(Debug, PartialEq, Eq)]
pub struct RefreshTokenResponse {
    pub data: Option<AccessToken>,
    pub errcode: String,
    pub errmsg: String,
}

/// The signed-in state shown to the user interface; it never carries tokens.
#[derive(Debug, PartialEq, Eq)]
pub struct AuthState {
    pub authenticated: bool,
    pub user: Option<UserInformation>,
    pub expires_at: Option<i64>,
}

impl AuthState {
    pub open spec fn spec_signed_out() -> AuthState {
        AuthState { authenticated: false, user: None, expires_at: None }
    }

    pub open spec fn spec_from_token(token: AccessToken) -> AuthState {
        AuthState {
            authenticated: true,
            user: Some(token.additional_information),
            expires_at: Some(token.expiration),
        }
    }

    pub fn signed_out() -> (r: Self)
        ensures
            r == Self::spec_signed_out(),
    {
        Self { authenticated: false, user: None, expires_at: None }
    }

    pub fn from_token(token: &AccessToken) -> (r: Self)
        ensures
            r == Self::spec_from_token(*token),
    {
        Self {
            authenticated: true,
            user: Some(token.additional_information.clone()),
            expires_at: Some(token.expiration),
        }
    }
}

} // verus!
