//! A client of the music server, holding where it is and how to authenticate.
use vstd::prelude::*;

pub mod createclienterror;

use createclienterror::CreateClientError;

verus! {

/// How the client authenticates.
#[derive(Clone, Debug, PartialEq, Eq)]
pub enum Credential {
    /// A password; with the flag set, legacy authentication sends it as it is instead of hashed.
    Password(String, bool),
    APIKey(String),
}

/// A client of the music server.
pub struct Client {
    pub url: String,
    pub username: String,
    pub auth: Credential,
}

impl Client {
    /// A client that logs in with a password, once a ping sent with these credentials has been
    /// answered: `ping_ok` says whether the server accepted them. Wrong credentials fail.
    pub fn password(url: String, username: String, password: String, legacy: bool, ping_ok: bool) -> (r: Result<Client, CreateClientError>)
        ensures
            ping_ok ==> (r matches Ok(c) && c.url == url && c.username == username && c.auth == Credential::Password(password, legacy)),
            !ping_ok ==> r is Err,
    {
        if !ping_ok {
            return Err(CreateClientError);
        }
        let client = Client::use_password(url, username, password, legacy);
        Ok(client)
    }

    /// A client that logs in with an API key, once a ping sent with these credentials has been
    /// answered: `ping_ok` says whether the server accepted them. Wrong credentials fail.
    pub fn token(url: String, username: String, apikey: String, ping_ok: bool) -> (r: Result<Self, CreateClientError>)
        ensures
            ping_ok ==> (r matches Ok(c) && c.url == url && c.username == username && c.auth == Credential::APIKey(apikey)),
            !ping_ok ==> r is Err,
    {
        if !ping_ok {
            return Err(CreateClientError);
        }
        let client = Client::use_token(url, username, apikey);
        Ok(client)
    }

    /// A client that logs in with an API key, without checking it.
    pub fn use_token(url: String, username: String, apikey: String) -> (c: Self)
        ensures
            c.url == url,
            c.username == username,
            c.auth == Credential::APIKey(apikey),
    {
        Self { url, username, auth: Credential::APIKey(apikey) }
    }

    /// A client that logs in with a password, without checking it.
    pub fn use_password(url: String, username: String, password: String, legacy: bool) -> (c: Self)
        ensures
            c.url == url,
            c.username == username,
            c.auth == Credential::Password(password, legacy),
    {
        Self { url, username, auth: Credential::Password(password, legacy) }
    }
}

} // verus!
