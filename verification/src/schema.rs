//! Storage-level schema types.

use vstd::prelude::*;

use crate::card::Visibility as InnerVisibility;

verus! {

/// Card visibility as stored: an integer-coded copy of
/// [`InnerVisibility`].
#[derive(Clone, Copy, Debug, PartialEq, Eq, Structural)]
pub enum Visibility {
    /// Stored as 0.
    Private,
    /// Stored as 1.
    Hidden,
    /// Stored as 2.
    Public,
}

impl Visibility {
    /// The integer this visibility is stored as.
    pub open spec fn spec_code(self) -> i32 {
        match self {
            Visibility::Private => 0,
            Visibility::Hidden => 1,
            Visibility::Public => 2,
        }
    }

    /// Returns the integer this visibility is stored as.
    pub fn code(&self) -> (r: i32)
        ensures
            r == self.spec_code(),
    {
        match self {
            Visibility::Private => 0,
            Visibility::Hidden => 1,
            Visibility::Public => 2,
        }
    }

    /// The visibility a stored integer denotes, if any.
    pub fn from_code(code: i32) -> (r: Option<Visibility>)
        ensures
            r matches Some(v) ==> v.spec_code() == code,
            r is Some <==> 0 <= code <= 2,
    {
        match code {
            0 => Some(Visibility::Private),
            1 => Some(Visibility::Hidden),
            2 => Some(Visibility::Public),
            _ => None,
        }
    }

    /// The model-level visibility this storage value denotes.
    pub open spec fn spec_to_model(self) -> InnerVisibility {
        match self {
            Visibility::Private => InnerVisibility::Private,
            Visibility::Hidden => InnerVisibility::Hidden,
            Visibility::Public => InnerVisibility::Public,
        }
    }

    /// Converts to the model-level visibility.
    pub fn to_model(self) -> (r: InnerVisibility)
        ensures
            r == self.spec_to_model(),
    {
        match self {
            Visibility::Private => InnerVisibility::Private,
            Visibility::Hidden => InnerVisibility::Hidden,
            Visibility::Public => InnerVisibility::Public,
        }
    }

    /// Converts from the model-level visibility.
    pub fn from_model(value: InnerVisibility) -> (r: Visibility)
        ensures
            r.spec_to_model() == value,
    {
        match value {
            InnerVisibility::Private => Visibility::Private,
            InnerVisibility::Hidden => Visibility::Hidden,
            InnerVisibility::Public => Visibility::Public,
        }
    }
}

} // verus!
