//! The credentials with which finished content is published.

use vstd::prelude::*;

verus! {

/// The four secrets that the publishing service asks for, in the order in
/// which they are looked up.
#[derive(Debug, Clone, Copy, PartialEq, Eq, Structural)]
pub enum CredentialName {
    ConsumerKey,
    ConsumerSecret,
    AccessToken,
    AccessTokenSecret,
}

impl CredentialName {
    /// The name of the environment variable that holds this credential.
    pub open spec fn variable_of(self) -> Seq<char> {
        match self {
            CredentialName::ConsumerKey => "CONSUMER_KEY"@,
            CredentialName::ConsumerSecret => "CONSUMER_SECRET"@,
            CredentialName::AccessToken => "ACCESS_TOKEN"@,
            CredentialName::AccessTokenSecret => "ACCESS_TOKEN_SECRET"@,
        }
    }

    /// The name of the environment variable that holds this credential.
    pub fn variable(self) -> (name: &'static str)
        ensures
            name@ == self.variable_of(),
    {
        match self {
            CredentialName::ConsumerKey => "CONSUMER_KEY",
            CredentialName::ConsumerSecret => "CONSUMER_SECRET",
            CredentialName::AccessToken => "ACCESS_TOKEN",
            CredentialName::AccessTokenSecret => "ACCESS_TOKEN_SECRET",
        }
    }
}

/// A complete set of credentials.
#[derive(Debug, PartialEq, Eq)]
pub struct Credentials {
    pub consumer_key: String,
    pub consumer_secret: String,
    pub access_token: String,
    pub access_token_secret: String,
}

/// The first credential, in lookup order, that is absent, if any is.
pub open spec fn first_missing(
    consumer_key: Option<String>,
    consumer_secret: Option<String>,
    access_token: Option<String>,
    access_token_secret: Option<String>,
) -> Option<CredentialName> {
    if consumer_key.is_none() {
        Some(CredentialName::ConsumerKey)
    } else if consumer_secret.is_none() {
        Some(CredentialName::ConsumerSecret)
    } else if access_token.is_none() {
        Some(CredentialName::AccessToken)
    } else if access_token_secret.is_none() {
        Some(CredentialName::AccessTokenSecret)
    } else {
        None
    }
}

impl Credentials {
    /// Gathers the four credentials from what was found for each of them.
    /// Succeeds exactly if all four are present; otherwise names the first
    /// one that is absent.
    pub fn gather(
        consumer_key: Option<String>,
        consumer_secret: Option<String>,
        access_token: Option<String>,
        access_token_secret: Option<String>,
    ) -> (res: Result<Credentials, CredentialName>)
        ensures
            match res {
                Ok(found) => {
                    &&& consumer_key == Some(found.consumer_key)
                    &&& consumer_secret == Some(found.consumer_secret)
                    &&& access_token == Some(found.access_token)
                    &&& access_token_secret == Some(found.access_token_secret)
                },
                Err(name) => first_missing(
                    consumer_key,
                    consumer_secret,
                    access_token,
                    access_token_secret,
                ) == Some(name),
            },
    {
        let consumer_key = match consumer_key {
            Some(value) => value,
            None => {
                return Err(CredentialName::ConsumerKey);
            },
        };
        let consumer_secret = match consumer_secret {
            Some(value) => value,
            None => {
                return Err(CredentialName::ConsumerSecret);
            },
        };
        let access_token = match access_token {
            Some(value) => value,
            None => {
                return Err(CredentialName::AccessToken);
            },
        };
        let access_token_secret = match access_token_secret {
            Some(value) => value,
            None => {
                return Err(CredentialName::AccessTokenSecret);
            },
        };
        Ok(Credentials { consumer_key, consumer_secret, access_token, access_token_secret })
    }
}

} // verus!
