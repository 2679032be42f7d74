//! Card visibility and the card endpoints' wire models.

use vstd::prelude::*;

use crate::user::Id;

verus! {

/// Card visibility.
///
/// This determines how a card appears to users that do not own it;
/// owners see everything.
#[derive(Clone, Copy, Debug, PartialEq, Eq, Structural)]
pub enum Visibility {
    /// Neither the card's existence nor its details can be seen by
    /// users that do not own it.
    Private,
    /// The card's existence may be seen by users that do not own it,
    /// but not its details.
    Hidden,
    /// The card, its existence and its details can all be seen by
    /// users that do not own it.
    Public,
}

impl Visibility {
    /// Creates the string representation of the visibility;
    /// [`Visibility::from_str`] turns it back.
    pub fn to_str(&self) -> (r: &'static str)
        ensures
            self is Private ==> r@ == "private"@,
            self is Hidden ==> r@ == "hidden"@,
            self is Public ==> r@ == "public"@,
    {
        match self {
            Visibility::Private => "private",
            Visibility::Hidden => "hidden",
            Visibility::Public => "public",
        }
    }

    /// Checks if the visibility is [`Visibility::Public`].
    pub fn is_public(&self) -> (r: bool)
        ensures
            r == (self is Public),
    {
        matches!(self, Visibility::Public)
    }

    /// Parses a string representation, accepting exactly the three
    /// strings [`Visibility::to_str`] produces.
    pub fn from_str(s: &str) -> (r: Result<Visibility, NoSuchVisibility>)
        ensures
            s@ == "private"@ ==> r == Ok::<Visibility, NoSuchVisibility>(Visibility::Private),
            s@ == "hidden"@ ==> r == Ok::<Visibility, NoSuchVisibility>(Visibility::Hidden),
            s@ == "public"@ ==> r == Ok::<Visibility, NoSuchVisibility>(Visibility::Public),
            r is Ok <==> (s@ == "private"@ || s@ == "hidden"@ || s@ == "public"@),
            r matches Err(e) ==> e.name@ == s@,
    {
        proof {
            reveal_strlit("private");
            reveal_strlit("hidden");
            reveal_strlit("public");
        }
        proof {
            assert("private"@.len() == 7);
            assert("hidden"@.len() == 6);
            assert("public"@.len() == 6);
            assert("hidden"@[0] == 'h');
            assert("public"@[0] == 'p');
            assert("private"@ != "hidden"@);
            assert("private"@ != "public"@);
            assert("hidden"@ != "public"@);
        }
        let owned = s.to_owned();
        if owned == "private".to_owned() {
            Ok(Visibility::Private)
        } else if owned == "hidden".to_owned() {
            Ok(Visibility::Hidden)
        } else if owned == "public".to_owned() {
            Ok(Visibility::Public)
        } else {
            Err(NoSuchVisibility { name: owned })
        }
    }
}

/// No visibility goes by the given name.
#[derive(Clone, Debug)]
pub struct NoSuchVisibility {
    /// The name that matched no visibility.
    pub name: String,
}

/// Query of the list-cards endpoint.
#[derive(Clone, Debug)]
pub struct ListCardsQuery {
    /// Search query.
    pub query: Option<String>,
    /// The query's page.
    pub page: Option<u32>,
    /// How many results should be returned.
    pub count: Option<u32>,
}

/// Query of the list-inventory endpoint.
#[derive(Clone, Debug)]
pub struct ListInventoryQuery {
    /// Filter by guild.
    pub guild_id: Option<Id>,
    /// The query's page.
    pub page: Option<u32>,
    /// How many results should be returned.
    pub count: Option<u32>,
}

/// A request for granting a card.
#[derive(Clone, Copy, Debug, PartialEq, Eq, Structural)]
pub struct GrantRequest {
    /// The id of the card to grant.
    pub card_id: i32,
}

} // verus!
