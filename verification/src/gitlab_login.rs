//! The stored access token: what is made of what was read from its place,
//! and what is said once it is written there.

use vstd::prelude::*;
use vstd::string::StringExecFns;
use crate::errors::{Error, ErrorView};
use crate::text::{trim_text, trimmed};

verus! {

/// What came of reading the place where the token is stored.
#[derive(Debug, Clone, PartialEq, Eq)]
pub enum StoredRead {
    /// What the place holds.
    Content(String),
    /// There is no such place.
    Missing,
    /// The place could not be read; the text says why.
    Failed(String),
}

/// The token that was stored, white space at either end apart; none where
/// nothing but white space is stored. A place that is missing means that
/// nobody has logged in.
pub open spec fn stored_token(read: StoredRead) -> Result<Option<Seq<char>>, ErrorView> {
    match read {
        StoredRead::Content(content) => if trimmed(content@).len() == 0 {
            Ok(None)
        } else {
            Ok(Some(trimmed(content@)))
        },
        StoredRead::Missing => Err(ErrorView::NotLoggedIn),
        StoredRead::Failed(why) => Err(ErrorView::Storage(why@)),
    }
}

/// What a token that may be absent, or the error in its place, holds.
pub open spec fn token_held(token: Result<Option<String>, Error>) -> Result<
    Option<Seq<char>>,
    ErrorView,
> {
    match token {
        Ok(Some(t)) => Ok(Some(t@)),
        Ok(None) => Ok(None),
        Err(e) => Err(e@),
    }
}

/// Makes the token of what was read from the place where it is stored.
pub fn fetch_stored_token(read: &StoredRead) -> (token: Result<Option<String>, Error>)
    ensures
        token_held(token) == stored_token(*read),
{
    match read {
        StoredRead::Content(content) => {
            let token = trim_text(content.as_str());
            if token.as_str().is_empty() {
                Ok(None)
            } else {
                Ok(Some(token))
            }
        },
        StoredRead::Missing => Err(Error::NotLoggedIn),
        StoredRead::Failed(why) => Err(Error::Storage(why.clone())),
    }
}

/// What is said after the token was written to its place, or the error
/// where it could not be written: `written` holds why not.
pub fn login(written: Result<(), String>) -> (said: Result<String, Error>)
    ensures
        match written {
            Ok(_) => said matches Ok(text) && text@ == "Token was stored successfully!"@,
            Err(why) => said matches Err(error) && error@ == ErrorView::Storage(why@),
        },
{
    match written {
        Ok(_) => Ok(String::from_str("Token was stored successfully!")),
        Err(why) => Err(Error::Storage(why)),
    }
}

} // verus!
