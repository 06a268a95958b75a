use crate::error::PointercrateError;
use crate::model::record::clone_text;
use crate::patch::PatchField;
use crate::permissions::{Permission, PermissionsSet};
use vstd::prelude::*;
use vstd::string::StrSliceExecFns;

verus! {

/// An account.
#[derive(Debug, PartialEq, Eq)]
pub struct User {
    pub id: i32,
    pub name: String,
    pub display_name: Option<String>,
    pub youtube_channel: Option<String>,
    pub permissions: PermissionsSet,
    /// What the password was hashed to. Access tokens are signed with a key made
    /// from it, so a new hash makes the tokens given out before worthless.
    pub password_hash: String,
}

impl User {
    /// Whether the account holds at least one of the capabilities in `required`.
    pub open spec fn spec_has_any(&self, required: &PermissionsSet) -> bool {
        !self.permissions@.disjoint(required@)
    }

    #[verifier::when_used_as_spec(spec_has_any)]
    pub fn has_any(&self, required: &PermissionsSet) -> (held: bool)
        ensures
            held == self.spec_has_any(required),
    {
        self.permissions.has_any(required)
    }

    /// Whether the account may moderate the list.
    pub open spec fn spec_list_moderator(&self) -> bool {
        self.permissions@.contains(Permission::ListModerator)
    }

    #[verifier::when_used_as_spec(spec_list_moderator)]
    pub fn list_moderator(&self) -> (held: bool)
        ensures
            held == self.spec_list_moderator(),
    {
        self.permissions.contains(Permission::ListModerator)
    }
}

impl Clone for User {
    fn clone(&self) -> (copy: Self)
        ensures
            copy == *self,
    {
        User {
            id: self.id,
            name: self.name.clone(),
            display_name: clone_text(&self.display_name),
            youtube_channel: clone_text(&self.youtube_channel),
            permissions: self.permissions,
            password_hash: self.password_hash.clone(),
        }
    }
}

/// What someone sends to open an account.
#[derive(Debug, PartialEq, Eq)]
pub struct Registration {
    pub name: String,
    pub password: String,
}

/// What an account sends to change what it may change of itself.
#[derive(Debug, PartialEq, Eq)]
pub struct PatchMe {
    pub password: PatchField<String>,
    pub display_name: PatchField<String>,
    pub youtube_channel: PatchField<String>,
}

/// The least number of bytes that the name of an account takes.
pub const MIN_NAME_LENGTH: usize = 3;

/// The least number of bytes that a password takes.
pub const MIN_PASSWORD_LENGTH: usize = 10;

/// The number of bytes that a text takes.
pub open spec fn byte_len(text: Seq<char>) -> nat {
    vstd::utf8::encode_utf8(text).len()
}

/// Whether a character is white space: a blank, a tab, a line break or one of the
/// other characters that leave a gap and no mark.
pub open spec fn is_whitespace(c: char) -> bool {
    let code = c as u32;
    ||| code == 0x20
    ||| 0x09 <= code <= 0x0d
    ||| code == 0x85
    ||| code == 0xa0
    ||| code == 0x1680
    ||| 0x2000 <= code <= 0x200a
    ||| code == 0x2028
    ||| code == 0x2029
    ||| code == 0x202f
    ||| code == 0x205f
    ||| code == 0x3000
}

#[verifier::when_used_as_spec(is_whitespace)]
pub fn whitespace(c: char) -> (white: bool)
    ensures
        white == is_whitespace(c),
{
    let code: u32 = c as u32;
    code == 0x20 || (0x09 <= code && code <= 0x0d) || code == 0x85 || code == 0xa0 || code
        == 0x1680 || (0x2000 <= code && code <= 0x200a) || code == 0x2028 || code == 0x2029
        || code == 0x202f || code == 0x205f || code == 0x3000
}

/// Whether a text neither begins nor ends with white space.
pub open spec fn trimmed(text: Seq<char>) -> bool {
    text.len() == 0 || (!is_whitespace(text[0]) && !is_whitespace(text[text.len() - 1]))
}

pub fn is_trimmed(text: &str) -> (fine: bool)
    ensures
        fine == trimmed(text@),
{
    let length = text.unicode_len();
    if length == 0 {
        return true;
    }
    !whitespace(text.get_char(0)) && !whitespace(text.get_char(length - 1))
}

/// Why a password is not accepted, if it is not: it is too short.
pub open spec fn password_objection(password: Seq<char>) -> Option<PointercrateError> {
    if byte_len(password) < MIN_PASSWORD_LENGTH {
        Some(PointercrateError::InvalidPassword)
    } else {
        None
    }
}

pub fn validate_password(password: &String) -> (result: Result<(), PointercrateError>)
    ensures
        result == match password_objection(password@) {
            Some(error) => Err::<(), PointercrateError>(error),
            None => Ok(()),
        },
{
    if password.as_str().as_bytes().len() < MIN_PASSWORD_LENGTH {
        Err(PointercrateError::InvalidPassword)
    } else {
        Ok(())
    }
}

impl Registration {
    /// Why the registration is turned down before the store is asked, if it is: the
    /// name is too short or has white space at one of its ends, or else the
    /// password is too short.
    pub open spec fn objection(&self) -> Option<PointercrateError> {
        if byte_len(self.name@) < MIN_NAME_LENGTH || !trimmed(self.name@) {
            Some(PointercrateError::InvalidUsername)
        } else {
            password_objection(self.password@)
        }
    }

    pub fn validate(&self) -> (result: Result<(), PointercrateError>)
        ensures
            result == match self.objection() {
                Some(error) => Err::<(), PointercrateError>(error),
                None => Ok(()),
            },
    {
        if self.name.as_str().as_bytes().len() < MIN_NAME_LENGTH || !is_trimmed(
            self.name.as_str(),
        ) {
            return Err(PointercrateError::InvalidUsername);
        }
        validate_password(&self.password)
    }
}

} // verus!
