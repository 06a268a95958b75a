use crate::error::PointercrateError;
use crate::middleware::auth::Me;
use crate::middleware::cond::{etag, token_of, Canonical, IfMatch};
use crate::permissions::{Permission, PermissionsSet};
use ipnetwork::IpNetwork;
use vstd::prelude::*;

verus! {

/// What is known of a request before a connection to the store is at hand.
#[derive(Debug)]
pub enum RequestData {
    /// The request comes from the system itself and is trusted.
    Internal,
    /// The request comes from outside.
    External {
        /// The address that it came from.
        ip: IpNetwork,
        /// The account that it was made for, if its credentials have held.
        user: Option<Me>,
        /// The tokens that it makes a write depend on, if it does.
        if_match: Option<IfMatch>,
    },
}

/// What a command knows of the request that it runs for, for as long as it runs:
/// who asks, on what condition, and over which connection of type `C` the store
/// is reached.
#[allow(missing_debug_implementations)]
pub enum RequestContext<'a, C> {
    Internal(&'a C),
    External {
        ip: IpNetwork,
        user: Option<&'a Me>,
        if_match: Option<&'a IfMatch>,
        connection: &'a C,
    },
}

impl<'a, C> Clone for RequestContext<'a, C> {
    fn clone(&self) -> (copy: Self)
        ensures
            copy == *self,
    {
        *self
    }
}

impl<'a, C> Copy for RequestContext<'a, C> {

}

impl RequestData {
    /// A request from outside, of which only the address is known yet.
    pub fn new(ip: IpNetwork) -> (data: Self)
        ensures
            data == (RequestData::External { ip, user: None, if_match: None }),
    {
        RequestData::External { ip, user: None, if_match: None }
    }

    /// What `with_user` gives.
    pub open spec fn spec_with_user(self, me: Me) -> RequestData {
        match self {
            RequestData::Internal => RequestData::Internal,
            RequestData::External { ip, user, if_match } => RequestData::External {
                ip,
                user: Some(me),
                if_match,
            },
        }
    }

    /// The same request, made for the account `me`. A request of the system itself
    /// stays as it is.
    pub fn with_user(self, me: Me) -> (data: Self)
        ensures
            data == self.spec_with_user(me),
    {
        match self {
            RequestData::Internal => RequestData::Internal,
            RequestData::External { ip, user: _, if_match } => RequestData::External {
                ip,
                user: Some(me),
                if_match,
            },
        }
    }

    /// What `with_if_match` gives.
    pub open spec fn spec_with_if_match(self, condition: Option<IfMatch>) -> RequestData {
        match self {
            RequestData::Internal => RequestData::Internal,
            RequestData::External { ip, user, if_match } => RequestData::External {
                ip,
                user,
                if_match: condition,
            },
        }
    }

    /// The same request, with `condition` as the tokens that it makes a write
    /// depend on. A request of the system itself stays as it is.
    pub fn with_if_match(self, condition: Option<IfMatch>) -> (data: Self)
        ensures
            data == self.spec_with_if_match(condition),
    {
        match self {
            RequestData::Internal => RequestData::Internal,
            RequestData::External { ip, user, if_match: _ } => RequestData::External {
                ip,
                user,
                if_match: condition,
            },
        }
    }

    /// What `ctx` gives.
    pub open spec fn spec_ctx<'a, C>(&'a self, connection: &'a C) -> RequestContext<'a, C> {
        match self {
            RequestData::Internal => RequestContext::Internal(connection),
            RequestData::External { ip, user, if_match } => RequestContext::External {
                ip: *ip,
                user: match user {
                    Some(me) => Some(me),
                    None => None,
                },
                if_match: match if_match {
                    Some(condition) => Some(condition),
                    None => None,
                },
                connection,
            },
        }
    }

    /// The context of a command that runs for this request over `connection`.
    pub fn ctx<'a, C>(&'a self, connection: &'a C) -> (context: RequestContext<'a, C>)
        ensures
            context == self.spec_ctx(connection),
    {
        match self {
            RequestData::Internal => RequestContext::Internal(connection),
            RequestData::External { ip, user, if_match } => RequestContext::External {
                ip: *ip,
                user: match user {
                    Some(me) => Some(me),
                    None => None,
                },
                if_match: match if_match {
                    Some(condition) => Some(condition),
                    None => None,
                },
                connection,
            },
        }
    }
}

impl<'a, C> RequestContext<'a, C> {
    /// What `check_permissions` answers.
    pub open spec fn permitted(&self, required: PermissionsSet) -> Result<(), PointercrateError> {
        if required@ == Set::<Permission>::empty() {
            Ok(())
        } else {
            match self {
                RequestContext::Internal(_) => Ok(()),
                RequestContext::External { user: None, .. } => Err(
                    PointercrateError::Unauthorized,
                ),
                RequestContext::External { user: Some(me), .. } => if me.0.spec_has_any(
                    &required,
                ) {
                    Ok(())
                } else {
                    Err(PointercrateError::MissingPermissions { required })
                },
            }
        }
    }

    /// Whether the one who asks may do what takes one of the capabilities in
    /// `permissions`.
    ///
    /// What takes no capability is open to all. The system itself may do anything.
    /// A request from outside is turned down as `Unauthorized` when it was made for
    /// no account, and with `MissingPermissions` when its account holds none of the
    /// capabilities.
    pub fn check_permissions(&self, permissions: PermissionsSet) -> (result: Result<
        (),
        PointercrateError,
    >)
        ensures
            result == self.permitted(permissions),
    {
        if permissions.is_empty() {
            return Ok(());
        }
        match self {
            RequestContext::External { user: None, .. } => Err(PointercrateError::Unauthorized),
            RequestContext::External { user: Some(me), .. } => {
                if me.0.has_any(&permissions) {
                    Ok(())
                } else {
                    Err(PointercrateError::MissingPermissions { required: permissions })
                }
            },
            RequestContext::Internal(_) => Ok(()),
        }
    }

    /// What `is_list_mod` answers.
    pub open spec fn spec_is_list_mod(&self) -> bool {
        match self {
            RequestContext::Internal(_) => true,
            RequestContext::External { user: Some(me), .. } => me.0.spec_list_moderator(),
            RequestContext::External { user: None, .. } => false,
        }
    }

    /// Whether the one who asks may moderate the list: the system itself may, and
    /// so may an account that holds that capability. A request made for no account
    /// may not.
    #[verifier::when_used_as_spec(spec_is_list_mod)]
    pub fn is_list_mod(&self) -> (moderator: bool)
        ensures
            moderator == self.spec_is_list_mod(),
    {
        match self {
            RequestContext::Internal(_) => true,
            RequestContext::External { user: Some(me), .. } => me.0.list_moderator(),
            RequestContext::External { user: None, .. } => false,
        }
    }

    /// What `check_if_match` answers for a value whose state has the token `token`.
    pub open spec fn matched(&self, token: u64) -> Result<(), PointercrateError> {
        match self {
            RequestContext::Internal(_) => Ok(()),
            RequestContext::External { if_match: Some(condition), .. } => if condition@.contains(
                token,
            ) {
                Ok(())
            } else {
                Err(PointercrateError::PreconditionFailed)
            },
            RequestContext::External { if_match: None, .. } => Err(
                PointercrateError::InvalidState,
            ),
        }
    }

    /// Whether `h` is still in a state that the caller has seen.
    ///
    /// The system itself sets no condition. A request from outside that sent tokens
    /// goes on when the token of `h` is among them, and fails with
    /// `PreconditionFailed` when it is not. To ask this for a request that sent no
    /// tokens is a mistake of the code that asks, and is answered with
    /// `InvalidState`.
    pub fn check_if_match<H: Canonical>(&self, h: &H) -> (result: Result<(), PointercrateError>)
        ensures
            result == self.matched(token_of(h.canonical())),
    {
        match self {
            RequestContext::External { if_match: Some(condition), .. } => {
                if condition.met(etag(h)) {
                    Ok(())
                } else {
                    Err(PointercrateError::PreconditionFailed)
                }
            },
            RequestContext::External { if_match: None, .. } => Err(
                PointercrateError::InvalidState,
            ),
            RequestContext::Internal(_) => Ok(()),
        }
    }

    /// What `connection` gives.
    pub open spec fn spec_connection(&self) -> &'a C {
        match self {
            RequestContext::Internal(connection) => connection,
            RequestContext::External { connection, .. } => connection,
        }
    }

    /// The connection over which the store is reached.
    #[verifier::when_used_as_spec(spec_connection)]
    pub fn connection(&self) -> (connection: &'a C)
        ensures
            connection == self.spec_connection(),
    {
        match self {
            RequestContext::Internal(connection) => connection,
            RequestContext::External { connection, .. } => connection,
        }
    }
}

/// A token that was made from a value passes the check against that value, as long
/// as the value has not changed: a request that sent the token of `h` among its
/// tokens is let through by `check_if_match` on `h`.
pub proof fn lemma_own_token_matches<'a, C, H: Canonical>(context: RequestContext<'a, C>, h: H)
    requires
        context matches RequestContext::External { if_match: Some(condition), .. }
            && condition@.contains(token_of(h.canonical())),
    ensures
        context.matched(token_of(h.canonical())) == Ok::<(), PointercrateError>(()),
{
}

} // verus!
