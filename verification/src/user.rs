//! Users, external identities, and the proxy-user wire models.

use vstd::prelude::*;

verus! {

/// A single user: a principal that can be authenticated and
/// authorized.
#[derive(Debug)]
pub struct User {
    /// The unique id of the user.
    pub id: i32,
    /// The display name of the user.
    pub display_name: String,
}

impl Clone for User {
    /// Cloning preserves the id and the display name.
    fn clone(&self) -> (r: User)
        ensures
            r.id == self.id,
            r.display_name@ == self.display_name@,
    {
        User { id: self.id, display_name: self.display_name.clone() }
    }
}

/// A container for large external ids.
///
/// External-system ids approach sizes not representable by common
/// JSON tooling, so they travel as string atoms; zero is never a
/// valid id.
#[derive(Clone, Copy, Debug, PartialEq, Eq, Structural, Hash)]
pub struct Id {
    value: u64,
}

impl Id {
    /// The numeric value of the id.
    pub closed spec fn spec_get(&self) -> u64 {
        self.value
    }

    /// A well-formed id is non-zero.
    pub open spec fn wf(&self) -> bool {
        self.spec_get() != 0
    }

    /// Creates a new `Id`.
    ///
    /// Returns `None` exactly when the id is zero.
    pub fn new(inner: u64) -> (r: Option<Id>)
        ensures
            r is Some <==> inner != 0,
            r matches Some(id) ==> id.spec_get() == inner && id.wf(),
    {
        if inner == 0 {
            None
        } else {
            Some(Id { value: inner })
        }
    }

    /// Returns the numeric value of the id.
    pub fn get(&self) -> (r: u64)
        ensures
            r == self.spec_get(),
    {
        self.value
    }
}

/// Request body for the principal-upsert endpoint.
///
/// Lets a trusted service update an external user's information and
/// optionally mint a token to pose as them.
#[derive(Clone, Debug)]
pub struct UpdateDiscordUserRequest {
    /// The external id of the user.
    pub discord_id: Id,
    /// The user's current username.
    pub display_name: String,
    /// Whether to mint a token for use in proxying.
    pub generate_token: bool,
}

/// Response body for the principal-upsert endpoint.
#[derive(Clone, Debug)]
pub struct UpdateDiscordUserResponse {
    /// The user.
    pub user: User,
    /// The external id of the updated user.
    pub discord_id: Id,
    /// A signed token that allows posing as the user.
    ///
    /// Only returned when `generate_token` was raised in the request;
    /// such tokens have short lifetimes.
    pub access_token: Option<String>,
}

/// An error for grant targets.
#[derive(Clone, Copy, Debug, PartialEq, Eq, Structural)]
pub enum GrantTargetError {
    /// The target is the current bot itself.
    IsCurrentUser,
    /// The target is a bot.
    IsBot,
}

impl GrantTargetError {
    /// A description of the error.
    pub fn to_message(&self) -> (r: &'static str)
        ensures
            self == GrantTargetError::IsCurrentUser ==> r@ == "user is current bot"@,
            self == GrantTargetError::IsBot ==> r@ == "user is a bot"@,
    {
        match self {
            GrantTargetError::IsCurrentUser => "user is current bot",
            GrantTargetError::IsBot => "user is a bot",
        }
    }
}

/// Checks whether a user can be granted cards.
///
/// The chat platform's cache is consulted at the edge; this takes its
/// findings: whether the target is the current bot itself, and
/// whether the target is any bot.  The current bot is refused first,
/// then any other bot; everyone else is accepted.
pub fn validate_grant(target_is_current_bot: bool, target_is_bot: bool) -> (r: Result<
    (),
    GrantTargetError,
>)
    ensures
        target_is_current_bot ==> r == Err::<(), GrantTargetError>(GrantTargetError::IsCurrentUser),
        !target_is_current_bot && target_is_bot ==> r == Err::<(), GrantTargetError>(
            GrantTargetError::IsBot,
        ),
        !target_is_current_bot && !target_is_bot ==> r is Ok,
{
    if target_is_current_bot {
        Err(GrantTargetError::IsCurrentUser)
    } else if target_is_bot {
        Err(GrantTargetError::IsBot)
    } else {
        Ok(())
    }
}

} // verus!
