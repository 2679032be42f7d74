//! Client-side configuration.
//!
//! Loading these values from files and the environment happens at the
//! edge; the structures here carry them, and the small rules attached
//! to them are verified.

use std::collections::HashMap;

use rand::RngExt;

use vstd::prelude::*;

verus! {

/// The default token-refresh retry budget.
pub fn token_refresh_retries_default() -> (r: u32)
    ensures
        r == 5,
{
    5
}

/// The main configuration struct.
#[derive(Clone, Debug)]
pub struct Config {
    /// General settings.
    pub general: GeneralConfig,
    /// API access configuration.
    pub api: ApiConfig,
    /// Accent text configuration.
    pub accent: AccentTextConfig,
    /// Category information, by category name.
    pub category: HashMap<String, CategoryConfig>,
}

/// General settings.
#[derive(Clone, Debug)]
pub struct GeneralConfig {
    /// The token the client uses against the chat platform.
    pub discord_token: String,
    /// The default color of embeds.
    pub embed_color: u32,
}

/// API connectivity config.
#[derive(Clone, Debug)]
pub struct ApiConfig {
    /// The API endpoint.
    pub endpoint: String,
    /// The static API key.
    pub key: String,
    /// How many times a rejected token is refreshed.
    pub token_refresh_retries: u32,
}

/// Configuration for accent text that appears in certain states or
/// actions.
#[derive(Clone, Debug)]
pub struct AccentTextConfig {
    /// Accent text for a user listing an empty inventory.
    pub no_cards_owned: String,
    /// Accent text for an admin granting a card to the bot itself.
    pub self_grant: String,
    /// Accent texts for a card that does not exist.
    pub not_found: Vec<String>,
    /// Accent texts for a card the user cannot access.
    pub unauthorized: Vec<String>,
}

/// Relies on rand: picks an index uniformly below `len`.
#[verifier::external_body]
fn choose_index(len: usize) -> (r: usize)
    requires
        len > 0,
    ensures
        r < len,
{
    rand::rng().random_range(0..len)
}

impl AccentTextConfig {
    /// Selects one of the not-found texts at random.
    pub fn select_not_found(&self) -> (r: &String)
        requires
            self.not_found@.len() > 0,
        ensures
            exists|i: int| 0 <= i < self.not_found@.len() && *r == self.not_found@[i],
    {
        let i = choose_index(self.not_found.len());
        &self.not_found[i]
    }

    /// Selects one of the unauthorized texts at random.
    pub fn select_unauthorized(&self) -> (r: &String)
        requires
            self.unauthorized@.len() > 0,
        ensures
            exists|i: int| 0 <= i < self.unauthorized@.len() && *r == self.unauthorized@[i],
    {
        let i = choose_index(self.unauthorized.len());
        &self.unauthorized[i]
    }
}

/// Describes a category of cards.
#[derive(Clone, Debug)]
pub struct CategoryConfig {
    /// Added before the card's title.
    pub prefix: Option<String>,
    /// Added after the card's title.
    pub suffix: Option<String>,
    /// Overrides the embed color.
    pub color: Option<u32>,
}

/// The title of a card in a category: the title between backticks,
/// with the category's prefix before it and suffix after it, each
/// separated by one space when present.
pub open spec fn spec_format_title(
    prefix: Option<Seq<char>>,
    suffix: Option<Seq<char>>,
    title: Seq<char>,
) -> Seq<char> {
    let quoted = "`"@ + title + "`"@;
    let with_prefix = match prefix {
        Some(p) => p + " "@ + quoted,
        None => quoted,
    };
    match suffix {
        Some(s) => with_prefix + " "@ + s,
        None => with_prefix,
    }
}

impl CategoryConfig {
    /// Formats the title of cards that belong to this category.
    pub fn format_title(&self, title: &str) -> (r: String)
        ensures
            r@ == spec_format_title(
                match self.prefix {
                    Some(p) => Some(p@),
                    None => None,
                },
                match self.suffix {
                    Some(s) => Some(s@),
                    None => None,
                },
                title@,
            ),
    {
        let mut out = String::new();
        match &self.prefix {
            Some(prefix) => {
                out.append(prefix.as_str());
                out.append(" ");
            },
            None => {},
        }
        out.append("`");
        out.append(title);
        out.append("`");
        match &self.suffix {
            Some(suffix) => {
                out.append(" ");
                out.append(suffix.as_str());
            },
            None => {},
        }
        proof {
            assert(out@ =~= spec_format_title(
                match self.prefix {
                    Some(p) => Some(p@),
                    None => None,
                },
                match self.suffix {
                    Some(s) => Some(s@),
                    None => None,
                },
                title@,
            ));
        }
        out
    }
}

} // verus!
