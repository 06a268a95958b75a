use crate::model::user::User;
use vstd::prelude::*;

verus! {

/// The credentials that came with a request.
#[derive(Debug, PartialEq, Eq)]
pub enum Authorization {
    Unauthorized,
    /// A name and a password.
    Basic(String, String),
    /// An access token.
    Token(String),
}

/// The account that a request was made for, once its credentials have held.
#[derive(Debug, PartialEq, Eq)]
pub struct Me(pub User);

} // verus!
