//! The outbound proxy request layer.
//!
//! A delegated send acts on the backend as another principal: it
//! looks up or mints a bearer token for that principal, executes the
//! request, and on a bad-credential rejection invalidates the cached
//! token and retries, up to a configured budget.  A service-mode send
//! makes a single attempt with the static API key and surfaces the
//! backend's structured error unchanged.
//!
//! The machine here takes every decision; performing the HTTP calls
//! and the issuer calls is the caller's part.  Each round trip is one
//! [`ProxySend::next_action`], the outside work it names, and the
//! matching [`ProxySend::on_mint_result`] or
//! [`ProxySend::on_attempt_result`].

use vstd::prelude::*;

use crate::cache::{CachedUser, CredentialCache, cached_token};
use crate::error::{ApiError, ErrorCode};
use crate::user::UpdateDiscordUserResponse;

verus! {

/// A marker type for a client requesting as the bot.
#[derive(Debug)]
pub struct Bot;

/// A marker type for a client requesting as a proxy.
#[derive(Debug)]
pub struct Proxy;

/// The token failed to refresh within the retry budget.
///
/// Distinct from any single request's error: it signals a systemic
/// trust failure, such as a signing-key mismatch, rather than a
/// transient one.
#[derive(Clone, Copy, Debug, PartialEq, Eq, Structural)]
pub struct TokenRefreshError;

/// The outcome of one executed attempt, as classified at the HTTP
/// edge: a 2xx response, or the backend's structured error body.
#[derive(Clone, Debug)]
pub enum AttemptOutcome {
    /// The response had a success status.
    Success,
    /// The response carried this structured error.
    Failure(ApiError),
}

/// How a delegated send ended.
#[derive(Clone, Debug)]
pub enum SendResult {
    /// An attempt succeeded.
    Success,
    /// The backend answered with an error that is not a
    /// bad-credential rejection; it is surfaced unchanged.
    Failure(ApiError),
    /// A mint call succeeded but granted no access token.
    NoTokenGranted,
    /// The retry budget was used up by bad-credential rejections.
    Exhausted,
}

/// Where a delegated send stands.
#[derive(Clone, Debug)]
pub enum SendPhase {
    /// Choosing a token for the next attempt.
    Ready,
    /// A mint has been requested from the issuer.
    Minting,
    /// An attempt with this bearer token is in flight.
    InFlight(String),
    /// The send has ended.
    Done(SendResult),
}

/// What the caller must do next.
#[derive(Clone, Debug)]
pub enum ProxyAction {
    /// Call the issuer to mint a token for the principal.
    Mint,
    /// Execute the request with this bearer token attached.
    Attempt(String),
}

/// The view of a [`SendResult`].
pub ghost enum ResultView {
    Success,
    Failure { code: ErrorCode, message: Seq<char> },
    NoTokenGranted,
    Exhausted,
}

/// The view of a [`SendPhase`].
pub ghost enum PhaseView {
    Ready,
    Minting,
    InFlight { token: Seq<char> },
    Done { result: ResultView },
}

/// The view of a [`ProxyAction`].
pub ghost enum ActionView {
    Mint,
    Attempt { token: Seq<char> },
}

/// The view of a mint call's result: a token was granted, the call
/// succeeded without granting one, or the call failed.
pub ghost enum MintView {
    Granted { token: Seq<char> },
    Refused,
    Failed { code: ErrorCode, message: Seq<char> },
}

/// The view of an [`AttemptOutcome`].
pub ghost enum OutcomeView {
    Success,
    Failure { code: ErrorCode, message: Seq<char> },
}

/// The visible state of a delegated send: the machine together with
/// the cache entry of its principal.
pub ghost struct SendView {
    /// Attempts that may still be made.
    pub attempts_left: u32,
    /// Where the send stands.
    pub phase: PhaseView,
    /// The token cached for the principal, if any.
    pub token: Option<Seq<char>>,
}

/// The view of a [`SendResult`] value.
pub open spec fn result_view(r: SendResult) -> ResultView {
    match r {
        SendResult::Success => ResultView::Success,
        SendResult::Failure(e) => ResultView::Failure { code: e.code, message: e.message@ },
        SendResult::NoTokenGranted => ResultView::NoTokenGranted,
        SendResult::Exhausted => ResultView::Exhausted,
    }
}

/// The view of a [`SendPhase`] value.
pub open spec fn phase_view(p: SendPhase) -> PhaseView {
    match p {
        SendPhase::Ready => PhaseView::Ready,
        SendPhase::Minting => PhaseView::Minting,
        SendPhase::InFlight(t) => PhaseView::InFlight { token: t@ },
        SendPhase::Done(r) => PhaseView::Done { result: result_view(r) },
    }
}

/// The view of an optional [`ProxyAction`].
pub open spec fn action_view(r: Option<ProxyAction>) -> Option<ActionView> {
    match r {
        Some(ProxyAction::Mint) => Some(ActionView::Mint),
        Some(ProxyAction::Attempt(t)) => Some(ActionView::Attempt { token: t@ }),
        None => None,
    }
}

/// The view of a mint call's result.
pub open spec fn mint_view(r: Result<UpdateDiscordUserResponse, ApiError>) -> MintView {
    match r {
        Ok(res) => match res.access_token {
            Some(t) => MintView::Granted { token: t@ },
            None => MintView::Refused,
        },
        Err(e) => MintView::Failed { code: e.code, message: e.message@ },
    }
}

/// The view of an [`AttemptOutcome`] value.
pub open spec fn outcome_view(o: AttemptOutcome) -> OutcomeView {
    match o {
        AttemptOutcome::Success => OutcomeView::Success,
        AttemptOutcome::Failure(e) => OutcomeView::Failure { code: e.code, message: e.message@ },
    }
}

/// Choosing the next step from a ready state: with the budget spent
/// the send is exhausted; with a cached token the attempt is made
/// with it; without one a mint comes first.
pub open spec fn spec_next(s: SendView) -> (SendView, Option<ActionView>)
    recommends
        s.phase is Ready,
{
    if s.attempts_left == 0 {
        (SendView { phase: PhaseView::Done { result: ResultView::Exhausted }, ..s }, None)
    } else {
        match s.token {
            Some(t) => (
                SendView { phase: PhaseView::InFlight { token: t }, ..s },
                Some(ActionView::Attempt { token: t }),
            ),
            None => (SendView { phase: PhaseView::Minting, ..s }, Some(ActionView::Mint)),
        }
    }
}

/// Absorbing a mint result: a granted token is cached and attempted;
/// a grant without a token ends the send; a failed mint call ends the
/// send with that very error.
pub open spec fn spec_mint(s: SendView, m: MintView) -> SendView
    recommends
        s.phase is Minting,
{
    match m {
        MintView::Granted { token } => SendView {
            phase: PhaseView::InFlight { token },
            token: Some(token),
            ..s
        },
        MintView::Refused => SendView {
            phase: PhaseView::Done { result: ResultView::NoTokenGranted },
            ..s
        },
        MintView::Failed { code, message } => SendView {
            phase: PhaseView::Done { result: ResultView::Failure { code, message } },
            ..s
        },
    }
}

/// Absorbing an attempt outcome: success ends the send; a
/// bad-credential rejection invalidates the cached token and consumes
/// one attempt, exhausting the send when it was the last; any other
/// error ends the send with that very error, never retried.
pub open spec fn spec_attempt(s: SendView, o: OutcomeView) -> SendView
    recommends
        s.phase is InFlight,
        s.attempts_left > 0,
{
    match o {
        OutcomeView::Success => SendView { phase: PhaseView::Done { result: ResultView::Success }, ..s },
        OutcomeView::Failure { code, message } => {
            if code == ErrorCode::BadCredentials {
                let left = (s.attempts_left - 1) as u32;
                SendView {
                    attempts_left: left,
                    token: None,
                    phase: if left == 0 {
                        PhaseView::Done { result: ResultView::Exhausted }
                    } else {
                        PhaseView::Ready
                    },
                }
            } else {
                SendView { phase: PhaseView::Done { result: ResultView::Failure { code, message } }, ..s }
            }
        },
    }
}

/// A delegated send in progress, for one target principal.
#[derive(Debug)]
pub struct ProxySend {
    /// The external id of the principal being proxied for.
    pub user_key: u64,
    /// Attempts that may still be made.
    pub attempts_left: u32,
    /// Where the send stands.
    pub phase: SendPhase,
}

impl ProxySend {
    /// A machine is well-formed when a pending mint or attempt still
    /// has budget behind it.
    pub open spec fn wf(self) -> bool {
        (self.phase is Minting || self.phase is InFlight) ==> self.attempts_left > 0
    }

    /// The visible state, given the cache's entries.
    pub open spec fn view_with(self, entries: Map<u64, CachedUser>) -> SendView {
        SendView {
            attempts_left: self.attempts_left,
            phase: phase_view(self.phase),
            token: cached_token(entries, self.user_key),
        }
    }

    /// Starts a delegated send for a principal with the given retry
    /// budget.
    pub fn begin(user_key: u64, retry_budget: u32) -> (r: ProxySend)
        ensures
            r.user_key == user_key,
            r.attempts_left == retry_budget,
            r.phase is Ready,
            r.wf(),
    {
        ProxySend { user_key, attempts_left: retry_budget, phase: SendPhase::Ready }
    }

    /// Chooses the next step of the send.
    ///
    /// Returns the action the caller must perform, or `None` when the
    /// send has ended; the phase records what is awaited.
    pub fn next_action(&mut self, cache: &CredentialCache) -> (r: Option<ProxyAction>)
        requires
            old(self).phase is Ready,
        ensures
            final(self).user_key == old(self).user_key,
            final(self).attempts_left == old(self).attempts_left,
            final(self).wf(),
            final(self).view_with(cache@) == spec_next(old(self).view_with(cache@)).0,
            action_view(r) == spec_next(old(self).view_with(cache@)).1,
    {
        if self.attempts_left == 0 {
            self.phase = SendPhase::Done(SendResult::Exhausted);
            None
        } else {
            let cached: Option<String> = match cache.get(self.user_key) {
                Some(entry) => match &entry.access_token {
                    Some(token) => Some(token.clone()),
                    None => None,
                },
                None => None,
            };
            match cached {
                Some(token) => {
                    self.phase = SendPhase::InFlight(token.clone());
                    Some(ProxyAction::Attempt(token))
                },
                None => {
                    self.phase = SendPhase::Minting;
                    Some(ProxyAction::Mint)
                },
            }
        }
    }

    /// Absorbs the result of the mint call requested by
    /// [`ProxySend::next_action`].
    ///
    /// A granted token is written to the cache and attempted next; a
    /// mint that granted no token, or failed outright, ends the send.
    /// Entries of other principals are untouched.
    pub fn on_mint_result(
        &mut self,
        cache: &mut CredentialCache,
        result: Result<UpdateDiscordUserResponse, ApiError>,
    )
        requires
            old(self).wf(),
            old(self).phase is Minting,
            result matches Ok(res) ==> res.discord_id.spec_get() == old(self).user_key,
        ensures
            final(self).user_key == old(self).user_key,
            final(self).attempts_left == old(self).attempts_left,
            final(self).wf(),
            final(self).view_with(final(cache)@) == spec_mint(
                old(self).view_with(old(cache)@),
                mint_view(result),
            ),
            final(cache)@.remove(old(self).user_key) == old(cache)@.remove(old(self).user_key),
    {
        match result {
            Ok(res) => {
                cache.update(&res);
                match res.access_token {
                    Some(token) => {
                        self.phase = SendPhase::InFlight(token);
                    },
                    None => {
                        self.phase = SendPhase::Done(SendResult::NoTokenGranted);
                    },
                }
            },
            Err(e) => {
                self.phase = SendPhase::Done(SendResult::Failure(e));
            },
        }
    }

    /// Absorbs the outcome of the attempt requested by
    /// [`ProxySend::next_action`] or set up by
    /// [`ProxySend::on_mint_result`].
    ///
    /// Success ends the send; a bad-credential rejection invalidates
    /// the principal's cache entry and consumes one attempt; any
    /// other error ends the send with that error unchanged.  Entries
    /// of other principals are untouched.
    pub fn on_attempt_result(&mut self, cache: &mut CredentialCache, outcome: AttemptOutcome)
        requires
            old(self).wf(),
            old(self).phase is InFlight,
        ensures
            final(self).user_key == old(self).user_key,
            final(self).wf(),
            final(self).view_with(final(cache)@) == spec_attempt(
                old(self).view_with(old(cache)@),
                outcome_view(outcome),
            ),
            final(cache)@.remove(old(self).user_key) == old(cache)@.remove(old(self).user_key),
    {
        match outcome {
            AttemptOutcome::Success => {
                self.phase = SendPhase::Done(SendResult::Success);
            },
            AttemptOutcome::Failure(e) => {
                if matches!(e.code, ErrorCode::BadCredentials) {
                    cache.invalidate(self.user_key);
                    self.attempts_left = self.attempts_left - 1;
                    if self.attempts_left == 0 {
                        self.phase = SendPhase::Done(SendResult::Exhausted);
                    } else {
                        self.phase = SendPhase::Ready;
                    }
                    proof {
                        assert(cache@.remove(self.user_key) =~= old(cache)@.remove(self.user_key));
                    }
                } else {
                    self.phase = SendPhase::Done(SendResult::Failure(e));
                }
            },
        }
    }
}

/// One full delegated round at the spec level: choose a token —
/// minting `minted` when none is cached — then observe `outcome` for
/// the attempt made with it.  With the budget spent, the round only
/// records exhaustion.
pub open spec fn spec_round(s: SendView, minted: Seq<char>, outcome: OutcomeView) -> SendView
    recommends
        s.phase is Ready,
{
    let (chosen, _) = spec_next(s);
    if s.attempts_left == 0 {
        chosen
    } else if s.token is None {
        spec_attempt(spec_mint(chosen, MintView::Granted { token: minted }), outcome)
    } else {
        spec_attempt(chosen, outcome)
    }
}

/// Runs a script of delegated rounds.
pub open spec fn run_rounds(s: SendView, mints: Seq<Seq<char>>, outcomes: Seq<OutcomeView>) -> SendView
    recommends
        mints.len() == outcomes.len(),
    decreases outcomes.len(),
{
    if outcomes.len() == 0 {
        s
    } else {
        run_rounds(spec_round(s, mints[0], outcomes[0]), mints.drop_first(), outcomes.drop_first())
    }
}

/// How many rounds of a script mint a token: those that start with
/// budget left and no cached token.
pub open spec fn run_mint_count(
    s: SendView,
    mints: Seq<Seq<char>>,
    outcomes: Seq<OutcomeView>,
) -> nat
    recommends
        mints.len() == outcomes.len(),
    decreases outcomes.len(),
{
    if outcomes.len() == 0 {
        0
    } else {
        let here: nat = if s.attempts_left > 0 && s.token is None {
            1
        } else {
            0
        };
        here + run_mint_count(
            spec_round(s, mints[0], outcomes[0]),
            mints.drop_first(),
            outcomes.drop_first(),
        )
    }
}

/// Whether every outcome of a script is a bad-credential rejection.
pub open spec fn all_bad_credentials(outcomes: Seq<OutcomeView>) -> bool {
    forall|i: int|
        0 <= i < outcomes.len() ==> ((#[trigger] outcomes[i]) matches OutcomeView::Failure {
            code,
            ..
        } && code == ErrorCode::BadCredentials)
}

/// Law: from a ready state with a retry budget of n >= 1, n
/// consecutive bad-credential rejections exhaust the send: it ends
/// `Exhausted` — never the last raw error — and no token stays
/// cached.  Every round without a cached token mints exactly once, so
/// a cold start mints n times and a warm start n - 1 (the first
/// round spends the cached token).
pub proof fn lemma_send_exhaustion(s: SendView, mints: Seq<Seq<char>>, outcomes: Seq<OutcomeView>)
    requires
        s.phase is Ready,
        s.attempts_left >= 1,
        mints.len() == outcomes.len(),
        outcomes.len() == s.attempts_left,
        all_bad_credentials(outcomes),
    ensures
        run_rounds(s, mints, outcomes).phase == (PhaseView::Done { result: ResultView::Exhausted }),
        run_rounds(s, mints, outcomes).token is None,
        run_mint_count(s, mints, outcomes) == s.attempts_left - (if s.token is Some {
            1int
        } else {
            0int
        }),
    decreases s.attempts_left,
{
    let s1 = spec_round(s, mints[0], outcomes[0]);
    assert(outcomes[0] matches OutcomeView::Failure { code, .. } && code
        == ErrorCode::BadCredentials);
    if s.attempts_left == 1 {
        assert(s1.phase == (PhaseView::Done { result: ResultView::Exhausted }));
        assert(run_rounds(s1, mints.drop_first(), outcomes.drop_first()) == s1);
        assert(run_mint_count(s1, mints.drop_first(), outcomes.drop_first()) == 0);
        assert(run_rounds(s, mints, outcomes) == s1);
    } else {
        assert(s1.phase is Ready && s1.token is None && s1.attempts_left == s.attempts_left - 1);
        assert(all_bad_credentials(outcomes.drop_first())) by {
            assert(forall|i: int|
                0 <= i < outcomes.drop_first().len() ==> outcomes.drop_first()[i] == outcomes[i
                    + 1]);
        }
        lemma_send_exhaustion(s1, mints.drop_first(), outcomes.drop_first());
    }
}

/// Law: from a ready state, k bad-credential rejections followed by
/// one success — k + 1 rounds within the budget — leave the send
/// successful, and the cache holds exactly the token the final
/// attempt used: the final round's minted token, except that a warm
/// start answered on its very first attempt keeps the token it
/// started with.  Every round without a cached token mints exactly
/// once.
///
/// The bound `outcomes.len() <= s.attempts_left` is needed: with k
/// equal to the full budget, the send exhausts before the successful
/// attempt could be made.
pub proof fn lemma_send_retries_then_success(
    s: SendView,
    mints: Seq<Seq<char>>,
    outcomes: Seq<OutcomeView>,
)
    requires
        s.phase is Ready,
        mints.len() == outcomes.len(),
        1 <= outcomes.len() <= s.attempts_left,
        all_bad_credentials(outcomes.drop_last()),
        outcomes.last() == OutcomeView::Success,
    ensures
        run_rounds(s, mints, outcomes).phase == (PhaseView::Done { result: ResultView::Success }),
        run_rounds(s, mints, outcomes).token == (if outcomes.len() == 1 && s.token is Some {
            s.token
        } else {
            Some(mints.last())
        }),
        run_mint_count(s, mints, outcomes) == outcomes.len() - (if s.token is Some {
            1int
        } else {
            0int
        }),
    decreases outcomes.len(),
{
    let s1 = spec_round(s, mints[0], outcomes[0]);
    if outcomes.len() == 1 {
        assert(outcomes[0] == OutcomeView::Success);
        assert(s1.phase == (PhaseView::Done { result: ResultView::Success }));
        assert(run_rounds(s1, mints.drop_first(), outcomes.drop_first()) == s1);
        assert(run_mint_count(s1, mints.drop_first(), outcomes.drop_first()) == 0);
        assert(run_rounds(s, mints, outcomes) == s1);
    } else {
        assert(outcomes.drop_last()[0] == outcomes[0]);
        assert(outcomes[0] matches OutcomeView::Failure { code, .. } && code
            == ErrorCode::BadCredentials);
        assert(s1.phase is Ready && s1.token is None && s1.attempts_left == s.attempts_left - 1);
        assert(outcomes.drop_first().drop_last() =~= outcomes.drop_last().drop_first());
        assert(all_bad_credentials(outcomes.drop_first().drop_last())) by {
            assert(forall|i: int|
                0 <= i < outcomes.drop_last().drop_first().len() ==> outcomes.drop_last().drop_first()[i]
                    == outcomes.drop_last()[i + 1]);
        }
        assert(outcomes.drop_first().last() == outcomes.last());
        assert(mints.drop_first().last() == mints.last());
        lemma_send_retries_then_success(s1, mints.drop_first(), outcomes.drop_first());
    }
}

/// Service-mode send policy: a single attempt with the static API
/// key; a success returns success, and any backend error is surfaced
/// unchanged, never retried.
pub fn service_send_result(outcome: AttemptOutcome) -> (r: Result<(), ApiError>)
    ensures
        outcome is Success <==> r is Ok,
        outcome matches AttemptOutcome::Failure(e) ==> (r matches Err(e2) && e2.code == e.code
            && e2.message@ == e.message@),
{
    match outcome {
        AttemptOutcome::Success => Ok(()),
        AttemptOutcome::Failure(e) => Err(e),
    }
}

} // verus!
