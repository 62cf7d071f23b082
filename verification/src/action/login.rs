//! Logging in to the server.
use vstd::prelude::*;

verus! {

/// What the user typed into the login form.
#[derive(Clone, Debug, PartialEq, Eq)]
pub struct Credentials {
    pub url: String,
    pub username: String,
    pub password: String,
}

impl Credentials {
    /// Bundles the three fields.
    pub fn new(url: String, username: String, password: String) -> (c: Self)
        ensures
            c.url == url,
            c.username == username,
            c.password == password,
    {
        Self { url, username, password }
    }
}

/// How a login attempt ended.
#[derive(Clone, Debug, PartialEq, Eq)]
pub enum LoginResponse {
    /// Login was successful
    Success,
    /// Login fails due to invalid host
    InvalidURL,
    /// Login fails due to invalid credentials (wrong username or password)
    InvalidCredentials,
    /// Login fails due to other reasons not listed here
    Other(String),
}

impl LoginResponse {
    /// The name of the variant, as the response is displayed.
    pub fn to_string(&self) -> (s: String)
        ensures
            s@ == match *self {
                LoginResponse::Success => "Success"@,
                LoginResponse::InvalidURL => "InvalidURL"@,
                LoginResponse::InvalidCredentials => "InvalidCredentials"@,
                LoginResponse::Other(_) => "Other"@,
            },
    {
        match self {
            LoginResponse::Success => "Success".to_string(),
            LoginResponse::InvalidURL => "InvalidURL".to_string(),
            LoginResponse::InvalidCredentials => "InvalidCredentials".to_string(),
            LoginResponse::Other(_) => "Other".to_string(),
        }
    }
}

/// A login request.
#[derive(Clone, Debug, PartialEq, Eq)]
pub enum LoginQuery {
    /// The login component asks to log in with these credentials
    Login(Credentials),
}

impl LoginQuery {
    /// The name of the variant, as the query is displayed.
    pub fn to_string(&self) -> (s: String)
        ensures
            s@ == "Login"@,
    {
        "Login".to_string()
    }
}

} // verus!
