//! Server-side token issuance.
//!
//! A trusted service presents the target principal's external
//! identity and display name; the issuer upserts the principal —
//! created lazily, at most once per external identity — and mints a
//! signed token with the principal's id as subject and a fixed short
//! expiry.  Tokens are never stored server-side.

use std::collections::HashMap;

use vstd::prelude::*;

use crate::claims::{Claims, SigningKeys, signed_token};
use crate::resolver::Authentication;
use crate::user::{UpdateDiscordUserRequest, UpdateDiscordUserResponse, User};

verus! {

broadcast use vstd::std_specs::hash::group_hash_axioms;

/// How long a minted token lives: fifteen minutes.
pub const TOKEN_TTL_SECONDS: i64 = 900;

/// The view of one stored principal row.
pub ghost struct PrincipalView {
    /// The unique id of the principal.
    pub id: i32,
    /// The display name of the principal.
    pub display_name: Seq<char>,
}

/// The view of a [`User`] row.
pub open spec fn user_view(u: User) -> PrincipalView {
    PrincipalView { id: u.id, display_name: u.display_name@ }
}

/// What an upsert does to a store, at the view level: an existing row
/// keeps its id and has its display name written through; a missing
/// row is created under the next free id.  Returns the new store, the
/// next free id, and the id of the upserted row.
pub open spec fn spec_upsert(
    store: Map<u64, PrincipalView>,
    next_id: i32,
    key: u64,
    name: Seq<char>,
) -> (Map<u64, PrincipalView>, i32, i32)
    recommends
        next_id < i32::MAX,
{
    if store.contains_key(key) {
        let id = store[key].id;
        (store.insert(key, PrincipalView { id, display_name: name }), next_id, id)
    } else {
        (
            store.insert(key, PrincipalView { id: next_id, display_name: name }),
            (next_id + 1) as i32,
            next_id,
        )
    }
}

/// Law: two first-contact upserts for the same new external identity
/// yield exactly one principal row.  The first creates the row; the
/// second — a racer re-fetching after the uniqueness constraint
/// refused its insert — lands on the same row and the same id, and
/// the store's domain grows by that one key only.
pub proof fn lemma_single_row_per_identity(
    store: Map<u64, PrincipalView>,
    next_id: i32,
    key: u64,
    name1: Seq<char>,
    name2: Seq<char>,
)
    requires
        !store.contains_key(key),
        store.dom().finite(),
        next_id < i32::MAX,
    ensures
        ({
            let (once, next1, id1) = spec_upsert(store, next_id, key, name1);
            let (twice, next2, id2) = spec_upsert(once, next1, key, name2);
            &&& id2 == id1
            &&& next2 == next1
            &&& twice.dom() == once.dom()
            &&& once.dom() == store.dom().insert(key)
            &&& twice.dom().len() == store.dom().len() + 1
        }),
{
    let (once, next1, id1) = spec_upsert(store, next_id, key, name1);
    let (twice, next2, id2) = spec_upsert(once, next1, key, name2);
    assert(twice.dom() =~= once.dom());
    assert(once.dom() =~= store.dom().insert(key));
}

/// The principal rows, keyed by external identity.
///
/// The key of this map is the storage-level uniqueness constraint on
/// external identity: it is what guards against duplicate principal
/// rows when two first-contact requests race, with no
/// application-level lock.
#[derive(Debug)]
pub struct PrincipalStore {
    users: HashMap<u64, User>,
    next_id: i32,
}

impl PrincipalStore {
    /// The stored rows, at the view level.
    pub closed spec fn view(&self) -> Map<u64, PrincipalView> {
        self.users@.map_values(|u: User| user_view(u))
    }

    /// The next id a created principal will receive.
    pub closed spec fn spec_next_id(&self) -> i32 {
        self.next_id
    }

    /// Creates an empty store.
    pub fn new() -> (r: PrincipalStore)
        ensures
            r@ == Map::<u64, PrincipalView>::empty(),
            r.spec_next_id() == 1,
    {
        let store = PrincipalStore { users: HashMap::new(), next_id: 1 };
        proof {
            assert(store@ =~= Map::<u64, PrincipalView>::empty());
        }
        store
    }

    /// Looks up the principal for an external identity.
    pub fn lookup(&self, key: u64) -> (r: Option<&User>)
        ensures
            r matches Some(u) ==> self@.contains_key(key) && user_view(*u) == self@[key],
            r is None ==> !self@.contains_key(key),
    {
        let r = self.users.get(&key);
        proof {
            if r is Some {
                assert(self@[key] == user_view(self.users@[key]));
            }
        }
        r
    }

    /// Upserts the principal for an external identity.
    ///
    /// An existing row keeps its id; a display name that differs is
    /// written through, not silently ignored.  A missing row is
    /// created under the next free id — the row and its
    /// external-identity link commit together or not at all.  Returns
    /// the id of the upserted principal.
    pub fn upsert(&mut self, key: u64, display_name: &str) -> (r: i32)
        requires
            old(self).spec_next_id() < i32::MAX,
        ensures
            ({
                let (store, next, id) = spec_upsert(
                    old(self)@,
                    old(self).spec_next_id(),
                    key,
                    display_name@,
                );
                &&& final(self)@ == store
                &&& final(self).spec_next_id() == next
                &&& r == id
            }),
    {
        let ghost prior = self@;
        match self.users.get(&key) {
            Some(user) => {
                let id = user.id;
                let row = User { id, display_name: display_name.to_owned() };
                self.users.insert(key, row);
                proof {
                    assert(self@ =~= spec_upsert(prior, self.next_id, key, display_name@).0);
                }
                id
            },
            None => {
                let id = self.next_id;
                let row = User { id, display_name: display_name.to_owned() };
                self.users.insert(key, row);
                self.next_id = self.next_id + 1;
                proof {
                    assert(self@ =~= spec_upsert(prior, id, key, display_name@).0);
                }
                id
            },
        }
    }
}

/// Why issuance failed.
#[derive(Clone, Copy, Debug, PartialEq, Eq, Structural)]
pub enum IssueError {
    /// The caller is authenticated but is not a managed service.
    Forbidden,
    /// The signing keys are malformed; no token can be minted.
    BadSigningKey,
}

/// Issues for a target principal: upserts the principal named by the
/// request and, when asked to, mints a signed token with the
/// principal's id as subject, issued at `now` and expiring a fixed
/// short time later.
///
/// Only a managed caller may issue; anyone else is refused with the
/// store untouched.  The minted token is returned, not stored.
pub fn issue(
    store: &mut PrincipalStore,
    auth: &Authentication,
    request: &UpdateDiscordUserRequest,
    keys: &SigningKeys,
    now: i64,
) -> (r: Result<UpdateDiscordUserResponse, IssueError>)
    requires
        old(store).spec_next_id() < i32::MAX,
        now + TOKEN_TTL_SECONDS <= i64::MAX,
    ensures
        !auth.spec_managed() ==> r == Err::<UpdateDiscordUserResponse, IssueError>(
            IssueError::Forbidden,
        ) && final(store)@ == old(store)@,
        auth.spec_managed() && request.generate_token && !keys.wf() ==> r == Err::<
            UpdateDiscordUserResponse,
            IssueError,
        >(IssueError::BadSigningKey) && ({
            let (store2, next, id) = spec_upsert(
                old(store)@,
                old(store).spec_next_id(),
                request.discord_id.spec_get(),
                request.display_name@,
            );
            &&& final(store)@ == store2
            &&& final(store).spec_next_id() == next
        }),
        auth.spec_managed() && (request.generate_token ==> keys.wf()) ==> (r matches Ok(res) && ({
            let (store2, next, id) = spec_upsert(
                old(store)@,
                old(store).spec_next_id(),
                request.discord_id.spec_get(),
                request.display_name@,
            );
            &&& final(store)@ == store2
            &&& final(store).spec_next_id() == next
            &&& res.user.id == id
            &&& res.user.display_name@ == request.display_name@
            &&& res.discord_id == request.discord_id
            &&& (request.generate_token ==> (res.access_token matches Some(t) && t@ == signed_token(
                keys.spec_secret(),
                id as i64,
                now,
                (now + TOKEN_TTL_SECONDS) as i64,
            )))
            &&& (!request.generate_token ==> res.access_token is None)
        })),
{
    if !auth.managed() {
        return Err(IssueError::Forbidden);
    }
    let id = store.upsert(request.discord_id.get(), request.display_name.as_str());
    let access_token: Option<String> = if request.generate_token {
        let claims = Claims::builder(id as i64).exp(TOKEN_TTL_SECONDS).build(now);
        match claims.encode(keys) {
            Ok(token) => Some(token),
            Err(_) => {
                return Err(IssueError::BadSigningKey);
            },
        }
    } else {
        None
    };
    let user = User { id, display_name: request.display_name.clone() };
    Ok(UpdateDiscordUserResponse { user, discord_id: request.discord_id, access_token })
}

} // verus!
