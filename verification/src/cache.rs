//! The client-side credential cache.
//!
//! Maps a principal's external identity to its current cached user
//! record and token.  Losing an entry never causes incorrect
//! behavior, only an extra mint round trip; the entry for a key is
//! removed whenever a request authenticated with its token is
//! rejected as a bad-credential error.

use std::collections::HashMap;

use vstd::prelude::*;

use crate::user::{UpdateDiscordUserResponse, User};

verus! {

broadcast use vstd::std_specs::hash::group_hash_axioms;

/// A cached user: the user record plus their current access token,
/// if one has been minted.
#[derive(Clone, Debug)]
pub struct CachedUser {
    /// The user.
    pub user: User,
    /// The access token of the user.
    pub access_token: Option<String>,
}

/// The characters of an optional token.
pub open spec fn opt_token_view(token: Option<String>) -> Option<Seq<char>> {
    match token {
        Some(t) => Some(t@),
        None => None,
    }
}

/// The token cached for a key, if the key has an entry and the entry
/// holds a token.
pub open spec fn cached_token(entries: Map<u64, CachedUser>, key: u64) -> Option<Seq<char>> {
    if entries.contains_key(key) {
        opt_token_view(entries[key].access_token)
    } else {
        None
    }
}

/// A store mapping a principal's external identity to its cached
/// token.
///
/// Two tasks racing after a miss may both mint; both resulting tokens
/// are valid and the last `put` wins — an accepted inefficiency, not
/// a correctness hazard, because minting is idempotent.  The store is
/// unbounded: where a capacity-bounded cache may quietly drop entries
/// under pressure, keeping them is the conservative choice — an entry
/// only ever saves a mint round trip.
#[derive(Debug)]
pub struct CredentialCache {
    entries: HashMap<u64, CachedUser>,
}

impl View for CredentialCache {
    type V = Map<u64, CachedUser>;

    closed spec fn view(&self) -> Map<u64, CachedUser> {
        self.entries@
    }
}

impl CredentialCache {
    /// Creates an empty cache.
    pub fn new() -> (r: CredentialCache)
        ensures
            r@ == Map::<u64, CachedUser>::empty(),
    {
        CredentialCache { entries: HashMap::new() }
    }

    /// Looks up the entry for a key.
    pub fn get(&self, key: u64) -> (r: Option<&CachedUser>)
        ensures
            r matches Some(entry) ==> self@.contains_key(key) && *entry == self@[key],
            r is None ==> !self@.contains_key(key),
    {
        self.entries.get(&key)
    }

    /// Stores the entry for a key, replacing any previous one.
    pub fn put(&mut self, key: u64, entry: CachedUser)
        ensures
            final(self)@ == old(self)@.insert(key, entry),
    {
        self.entries.insert(key, entry);
    }

    /// Removes the entry for a key, if any.
    pub fn invalidate(&mut self, key: u64)
        ensures
            final(self)@ == old(self)@.remove(key),
    {
        self.entries.remove(&key);
    }

    /// Updates the cache with a principal-upsert response.
    ///
    /// The entry keeps the freshly returned access token when the
    /// response carries one; otherwise it keeps the token already
    /// cached for that key, so an upsert that minted nothing does not
    /// discard a live token.  Entries under other keys are untouched.
    pub fn update(&mut self, res: &UpdateDiscordUserResponse)
        ensures
            final(self)@.contains_key(res.discord_id.spec_get()),
            final(self)@.remove(res.discord_id.spec_get()) == old(self)@.remove(
                res.discord_id.spec_get(),
            ),
            final(self)@[res.discord_id.spec_get()].user.id == res.user.id,
            final(self)@[res.discord_id.spec_get()].user.display_name@ == res.user.display_name@,
            cached_token(final(self)@, res.discord_id.spec_get()) == (match res.access_token {
                Some(t) => Some(t@),
                None => cached_token(old(self)@, res.discord_id.spec_get()),
            }),
    {
        let key = res.discord_id.get();
        let access_token: Option<String> = match &res.access_token {
            Some(token) => Some(token.clone()),
            None => match self.get(key) {
                Some(cached) => match &cached.access_token {
                    Some(token) => Some(token.clone()),
                    None => None,
                },
                None => None,
            },
        };
        self.put(key, CachedUser { user: res.user.clone(), access_token });
        proof {
            assert(self@.remove(res.discord_id.spec_get()) =~= old(self)@.remove(
                res.discord_id.spec_get(),
            ));
        }
    }
}

} // verus!
