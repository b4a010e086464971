//! The resilient-post protocol: one logical post survives token expiry
//! through at most one refresh and one reauthorization, never more than two
//! post attempts.
//!
//! The protocol is a state machine. Each [`step`] takes the answer of the
//! last outside call and decides the next one; the caller performs the call
//! (the HTTP request lives outside this library) and feeds the answer back
//! in. A [`Directive`] also says when a freshly granted record must be
//! persisted and put into the session.

use vstd::prelude::*;
use crate::token::TokenRecord;

verus! {

/// The platforms this tool posts to.
#[derive(Clone, Copy, PartialEq, Eq, Structural, Debug)]
pub enum Platform {
    Bluesky,
    Twitter,
    Mastodon,
    LinkedIn,
}

impl Platform {
    /// Whether the platform grants refresh tokens that buy a new access
    /// token without the user.
    pub open spec fn spec_supports_refresh(self) -> bool {
        self == Platform::Bluesky || self == Platform::Twitter
    }

    #[verifier::when_used_as_spec(spec_supports_refresh)]
    pub fn supports_refresh(self) -> (r: bool)
        ensures
            r == self.spec_supports_refresh(),
    {
        self == Platform::Bluesky || self == Platform::Twitter
    }

    /// Whether the platform can be reauthorized without the user: only the
    /// password grant allows that. The code-flow platforms need the user to
    /// fetch a fresh authorization code, so their reauthorization inside a
    /// post is surfaced as [`PostFailure::InteractionRequired`].
    pub open spec fn spec_unattended_reauth(self) -> bool {
        self == Platform::Bluesky
    }

    #[verifier::when_used_as_spec(spec_unattended_reauth)]
    pub fn unattended_reauth(self) -> (r: bool)
        ensures
            r == self.spec_unattended_reauth(),
    {
        self == Platform::Bluesky
    }
}

/// How one post attempt came back.
#[derive(Debug)]
pub enum PostOutcome {
    /// The platform accepted the post.
    Success,
    /// The platform rejected the credentials; the resilience protocol runs.
    Unauthorized,
    /// The platform declined the request for a non-auth reason; the body is
    /// kept for diagnostics. Terminal, never retried.
    Rejected(String),
    /// The request never got an answer (network failure). Never retried.
    Transport,
}

/// Why an authorization step failed.
#[derive(Debug)]
pub enum AuthError {
    /// The provider declined the grant; the body is kept for diagnostics.
    Rejected(String),
    /// The provider declined the refresh token itself; the caller must fall
    /// back to full reauthorization.
    RefreshRejected(String),
    /// Reauthorization needs a fresh code from the user and cannot run
    /// unattended.
    InteractionRequired,
}

/// How one whole resilient post ended.
#[derive(Debug)]
pub enum PostFailure {
    /// The platform declined the content or the request; the body is kept.
    Rejected(String),
    /// The network failed.
    Transport,
    /// Refresh and reauthorization were both spent without a grant.
    AuthExhausted,
    /// Recovery needs the user; nothing further runs unattended.
    InteractionRequired,
}

/// The result of one whole resilient post.
#[derive(Debug)]
pub enum PostResult {
    Posted,
    Failed(PostFailure),
}

/// Where the protocol stands.
pub enum Phase {
    /// A post attempt is out; `attempt` counts it (first or second).
    Posting { attempt: u8, token: TokenRecord },
    /// A refresh call is out.
    Refreshing,
    /// A reauthorization call is out.
    Reauthorizing,
    /// The protocol ended.
    Done { result: PostResult },
}

/// What the answer to the pending outside call was.
pub enum Event {
    /// The post attempt's classified outcome.
    Outcome(PostOutcome),
    /// The refresh call's grant, if it succeeded.
    Refreshed(Option<TokenRecord>),
    /// The reauthorization call's grant, if it succeeded.
    Reauthorized(Option<TokenRecord>),
}

/// The next outside call the caller must make.
pub enum NextCall {
    /// Attempt the post with this record.
    Post { token: TokenRecord },
    /// Exchange this refresh token for a new record.
    Refresh { refresh_token: String },
    /// Reauthorize from the stored credentials (password grant).
    Reauthorize,
    /// Nothing; the phase is `Done`.
    Finished,
}

/// What the caller must do after a step: persist a freshly granted record
/// (to the credential store and the session), then make the next call.
pub struct Directive {
    pub persist: Option<TokenRecord>,
    pub call: NextCall,
}

/// A directive that asks for nothing further.
pub open spec fn spec_finished() -> Directive {
    Directive { persist: None, call: NextCall::Finished }
}

fn finished() -> (r: Directive)
    ensures
        r == spec_finished(),
{
    Directive { persist: None, call: NextCall::Finished }
}

/// A post attempt's classification: a success status accepts it, a 401
/// starts the resilience protocol, anything else declines it for good with
/// the body kept for diagnostics.
pub open spec fn spec_classify(status: u16, body: String) -> PostOutcome {
    if 200 <= status < 300 {
        PostOutcome::Success
    } else if status == 401 {
        PostOutcome::Unauthorized
    } else {
        PostOutcome::Rejected(body)
    }
}

/// Classifies a post attempt's HTTP answer; see [`spec_classify`].
pub fn classify_status(status: u16, body: String) -> (r: PostOutcome)
    ensures
        r == spec_classify(status, body),
{
    if 200 <= status && status < 300 {
        PostOutcome::Success
    } else if status == 401 {
        PostOutcome::Unauthorized
    } else {
        PostOutcome::Rejected(body)
    }
}

/// Where an unauthorized attempt goes when no refresh is available: an
/// unattended reauthorization where the platform allows one, else a
/// terminal demand for the user.
pub open spec fn spec_reauth_fallback(platform: Platform) -> (Phase, Directive) {
    if platform.spec_unattended_reauth() {
        (Phase::Reauthorizing, Directive { persist: None, call: NextCall::Reauthorize })
    } else {
        (
            Phase::Done { result: PostResult::Failed(PostFailure::InteractionRequired) },
            spec_finished(),
        )
    }
}

fn reauth_fallback(platform: Platform) -> (r: (Phase, Directive))
    ensures
        r == spec_reauth_fallback(platform),
{
    if platform.unattended_reauth() {
        (Phase::Reauthorizing, Directive { persist: None, call: NextCall::Reauthorize })
    } else {
        (Phase::Done { result: PostResult::Failed(PostFailure::InteractionRequired) }, finished())
    }
}

/// The protocol's whole decision table: from a phase and the answer to the
/// pending call, the next phase and directive. An event that does not
/// answer the pending call changes nothing.
pub open spec fn step_spec(platform: Platform, ph: Phase, ev: Event) -> (Phase, Directive) {
    match (ph, ev) {
        (Phase::Posting { attempt, token }, Event::Outcome(o)) => match o {
            PostOutcome::Success => (Phase::Done { result: PostResult::Posted }, spec_finished()),
            PostOutcome::Rejected(body) => (
                Phase::Done { result: PostResult::Failed(PostFailure::Rejected(body)) },
                spec_finished(),
            ),
            PostOutcome::Transport => (
                Phase::Done { result: PostResult::Failed(PostFailure::Transport) },
                spec_finished(),
            ),
            PostOutcome::Unauthorized => {
                if attempt >= 2 {
                    (
                        Phase::Done { result: PostResult::Failed(PostFailure::AuthExhausted) },
                        spec_finished(),
                    )
                } else if platform.spec_supports_refresh() {
                    match token.refresh_token {
                        Some(rt) => (
                            Phase::Refreshing,
                            Directive { persist: None, call: NextCall::Refresh { refresh_token: rt } },
                        ),
                        None => spec_reauth_fallback(platform),
                    }
                } else {
                    spec_reauth_fallback(platform)
                }
            },
        },
        (Phase::Refreshing, Event::Refreshed(res)) => match res {
            Some(new) => (
                Phase::Posting { attempt: 2, token: new },
                Directive { persist: Some(new), call: NextCall::Post { token: new } },
            ),
            None => spec_reauth_fallback(platform),
        },
        (Phase::Reauthorizing, Event::Reauthorized(res)) => match res {
            Some(new) => (
                Phase::Posting { attempt: 2, token: new },
                Directive { persist: Some(new), call: NextCall::Post { token: new } },
            ),
            None => (
                Phase::Done { result: PostResult::Failed(PostFailure::AuthExhausted) },
                spec_finished(),
            ),
        },
        (p, _) => (p, spec_finished()),
    }
}

/// One protocol step, executable. See [`step_spec`] for the decision table.
pub fn step(platform: Platform, ph: Phase, ev: Event) -> (r: (Phase, Directive))
    ensures
        r == step_spec(platform, ph, ev),
{
    match (ph, ev) {
        (Phase::Posting { attempt, token }, Event::Outcome(o)) => match o {
            PostOutcome::Success => (Phase::Done { result: PostResult::Posted }, finished()),
            PostOutcome::Rejected(body) => (
                Phase::Done { result: PostResult::Failed(PostFailure::Rejected(body)) },
                finished(),
            ),
            PostOutcome::Transport => (
                Phase::Done { result: PostResult::Failed(PostFailure::Transport) },
                finished(),
            ),
            PostOutcome::Unauthorized => {
                if attempt >= 2 {
                    (
                        Phase::Done { result: PostResult::Failed(PostFailure::AuthExhausted) },
                        finished(),
                    )
                } else if platform.supports_refresh() {
                    match token.refresh_token {
                        Some(rt) => (
                            Phase::Refreshing,
                            Directive { persist: None, call: NextCall::Refresh { refresh_token: rt } },
                        ),
                        None => reauth_fallback(platform),
                    }
                } else {
                    reauth_fallback(platform)
                }
            },
        },
        (Phase::Refreshing, Event::Refreshed(res)) => match res {
            Some(new) => {
                let kept = new.duplicate();
                let sent = new.duplicate();
                (
                    Phase::Posting { attempt: 2, token: kept },
                    Directive { persist: Some(new), call: NextCall::Post { token: sent } },
                )
            },
            None => reauth_fallback(platform),
        },
        (Phase::Reauthorizing, Event::Reauthorized(res)) => match res {
            Some(new) => {
                let kept = new.duplicate();
                let sent = new.duplicate();
                (
                    Phase::Posting { attempt: 2, token: kept },
                    Directive { persist: Some(new), call: NextCall::Post { token: sent } },
                )
            },
            None => (
                Phase::Done { result: PostResult::Failed(PostFailure::AuthExhausted) },
                finished(),
            ),
        },
        (p, _) => (p, finished()),
    }
}

/// Where a whole resilient post starts: the first attempt goes out with the
/// record in hand.
pub open spec fn spec_start(platform: Platform, token: TokenRecord) -> (Phase, Directive) {
    (
        Phase::Posting { attempt: 1, token },
        Directive { persist: None, call: NextCall::Post { token } },
    )
}

/// One resilient post in flight against a single platform.
pub struct Executor {
    pub platform: Platform,
    pub phase: Phase,
}

impl Executor {
    /// Whether `ev` answers the call this executor has pending.
    pub open spec fn accepts(self, ev: Event) -> bool {
        match (self.phase, ev) {
            (Phase::Posting { .. }, Event::Outcome(_)) => true,
            (Phase::Refreshing, Event::Refreshed(_)) => true,
            (Phase::Reauthorizing, Event::Reauthorized(_)) => true,
            _ => false,
        }
    }

    /// Whether the post has ended, and how.
    pub fn result(&self) -> (r: Option<&PostResult>)
        ensures
            (match self.phase {
                Phase::Done { result } => r == Some(&result),
                _ => r is None,
            }),
    {
        match &self.phase {
            Phase::Done { result } => Some(result),
            _ => None,
        }
    }

    /// Begins a resilient post: the caller must attempt the post with the
    /// directive's record and feed the classified outcome back in.
    pub fn start(platform: Platform, token: TokenRecord) -> (r: (Executor, Directive))
        ensures
            r.0.platform == platform,
            (r.0.phase, r.1) == spec_start(platform, token),
    {
        let sent = token.duplicate();
        (
            Executor { platform, phase: Phase::Posting { attempt: 1, token } },
            Directive { persist: None, call: NextCall::Post { token: sent } },
        )
    }

    /// Feeds the answer of the pending call in and takes the next directive.
    pub fn on_event(&mut self, ev: Event) -> (d: Directive)
        requires
            old(self).accepts(ev),
        ensures
            final(self).platform == old(self).platform,
            (final(self).phase, d) == step_spec(old(self).platform, old(self).phase, ev),
    {
        let mut ph = Phase::Reauthorizing;
        core::mem::swap(&mut ph, &mut self.phase);
        let (next, d) = step(self.platform, ph, ev);
        self.phase = next;
        d
    }
}

// ---------------------------------------------------------------------------
// What holds of every run of the protocol.
// ---------------------------------------------------------------------------

/// The directives a run hands out: one step per event, however the events
/// read.
pub open spec fn run_calls(platform: Platform, ph: Phase, evs: Seq<Event>) -> Seq<Directive>
    decreases evs.len(),
{
    if evs.len() == 0 {
        Seq::empty()
    } else {
        let s = step_spec(platform, ph, evs[0]);
        seq![s.1] + run_calls(platform, s.0, evs.drop_first())
    }
}

/// How many of the directives ask for a post attempt.
pub open spec fn count_posts(ds: Seq<Directive>) -> nat
    decreases ds.len(),
{
    if ds.len() == 0 {
        0
    } else {
        (if ds[0].call is Post {
            1nat
        } else {
            0nat
        }) + count_posts(ds.drop_first())
    }
}

/// How many post attempts a phase may still ask for.
pub open spec fn post_budget(ph: Phase) -> nat {
    match ph {
        Phase::Posting { attempt, .. } => if attempt <= 1 {
            1nat
        } else {
            0nat
        },
        Phase::Refreshing => 1,
        Phase::Reauthorizing => 1,
        Phase::Done { .. } => 0,
    }
}

/// However the events read, a run from `ph` asks for at most
/// `post_budget(ph)` further post attempts.
pub proof fn lemma_run_calls_bounded(platform: Platform, ph: Phase, evs: Seq<Event>)
    ensures
        count_posts(run_calls(platform, ph, evs)) <= post_budget(ph),
    decreases evs.len(),
{
    if evs.len() > 0 {
        let s = step_spec(platform, ph, evs[0]);
        lemma_run_calls_bounded(platform, s.0, evs.drop_first());
        let ds = run_calls(platform, ph, evs);
        let tail = run_calls(platform, s.0, evs.drop_first());
        assert(ds == seq![s.1] + tail);
        assert(ds[0] == s.1);
        assert(ds.drop_first() =~= tail);
    }
}

/// However the platform answers, one resilient post issues at most two post
/// attempts: the initial call and a single retry.
pub proof fn lemma_at_most_two_posts(platform: Platform, token: TokenRecord, evs: Seq<Event>)
    ensures
        ({
            let s = spec_start(platform, token);
            count_posts(seq![s.1] + run_calls(platform, s.0, evs)) <= 2
        }),
{
    let s = spec_start(platform, token);
    let tail = run_calls(platform, s.0, evs);
    lemma_run_calls_bounded(platform, s.0, evs);
    assert((seq![s.1] + tail)[0] == s.1);
    assert((seq![s.1] + tail).drop_first() =~= tail);
}

/// An unauthorized first attempt followed by a successful refresh issues
/// exactly one retried post attempt, carrying the refreshed record, which
/// the directive also hands over for persisting; nothing further is posted,
/// however the retry goes.
pub proof fn lemma_refresh_retry(
    platform: Platform,
    t: TokenRecord,
    n: TokenRecord,
    evs: Seq<Event>,
)
    requires
        platform.spec_supports_refresh(),
        t.refresh_token is Some,
    ensures
        ({
            let s0 = spec_start(platform, t);
            let s1 = step_spec(platform, s0.0, Event::Outcome(PostOutcome::Unauthorized));
            let s2 = step_spec(platform, s1.0, Event::Refreshed(Some(n)));
            &&& s1.0 is Refreshing
            &&& s1.1.persist is None
            &&& s1.1.call == (NextCall::Refresh { refresh_token: t.refresh_token->0 })
            &&& s2.0 == (Phase::Posting { attempt: 2u8, token: n })
            &&& s2.1.persist == Some(n)
            &&& s2.1.call == (NextCall::Post { token: n })
            &&& count_posts(run_calls(platform, s2.0, evs)) == 0
        }),
{
    let s0 = spec_start(platform, t);
    let s1 = step_spec(platform, s0.0, Event::Outcome(PostOutcome::Unauthorized));
    let s2 = step_spec(platform, s1.0, Event::Refreshed(Some(n)));
    lemma_run_calls_bounded(platform, s2.0, evs);
}

/// An unauthorized attempt with no refresh to lean on (the platform grants
/// none, the record carries none, or the refresh call failed) falls back to
/// at most one reauthorization: unattended where the platform's grant allows
/// it, else surfaced to the user. A failed reauthorization ends the post
/// with nothing further issued.
pub proof fn lemma_reauth_fallback(platform: Platform, t: TokenRecord, evs: Seq<Event>)
    ensures
        ({
            let s0 = spec_start(platform, t);
            let s1 = step_spec(platform, s0.0, Event::Outcome(PostOutcome::Unauthorized));
            (!platform.spec_supports_refresh() || t.refresh_token is None) ==> s1
                == spec_reauth_fallback(platform)
        }),
        step_spec(platform, Phase::Refreshing, Event::Refreshed(None)) == spec_reauth_fallback(
            platform,
        ),
        ({
            let s = step_spec(platform, Phase::Reauthorizing, Event::Reauthorized(None));
            &&& s.0 == (Phase::Done { result: PostResult::Failed(PostFailure::AuthExhausted) })
            &&& s.1 == spec_finished()
            &&& count_posts(run_calls(platform, s.0, evs)) == 0
        }),
{
    let s = step_spec(platform, Phase::Reauthorizing, Event::Reauthorized(None));
    lemma_run_calls_bounded(platform, s.0, evs);
}

} // verus!
