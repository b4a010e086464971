//! The shared session state and the broadcast coordinator's decisions.
//!
//! The session records, per platform, whether the user is authorized, and
//! holds the Bluesky access token and subject id that post-creation calls
//! need. The coordinator picks the platforms a broadcast goes to, applies
//! each platform's outcome to the session independently of the others, and
//! clears the outbound message unconditionally once all attempts are over.

use vstd::prelude::*;
use crate::protocol::{Platform, PostFailure, PostResult};
use crate::text::clone_string;
use crate::token::TokenRecord;

verus! {

/// The shared session state. Destroyed with the process; only token records
/// survive, through the credential store.
pub struct AppState {
    pub twitter_authorized: bool,
    pub mastodon_authorized: bool,
    pub bluesky_authorized: bool,
    pub post_text: String,
    pub bluesky_token: Option<String>,
    pub did: Option<String>,
}

/// Which platforms the user ticked for the next broadcast.
#[derive(Clone, Copy, PartialEq, Eq, Structural, Debug)]
pub struct Selection {
    pub twitter: bool,
    pub bluesky: bool,
    pub mastodon: bool,
}

/// Whether a failed post revokes the platform's authorization: only spent
/// or user-bound credentials do; a declined post or a network failure does
/// not touch the session.
pub open spec fn spec_revokes(r: PostResult) -> bool {
    r == PostResult::Failed(PostFailure::AuthExhausted) || r == PostResult::Failed(
        PostFailure::InteractionRequired,
    )
}

/// The session after one platform's post outcome: its own authorization flag
/// may fall; nothing of any other platform moves, and the message text
/// stands.
pub open spec fn spec_apply_result(s: AppState, platform: Platform, r: PostResult) -> AppState {
    if spec_revokes(r) {
        match platform {
            Platform::Twitter => AppState { twitter_authorized: false, ..s },
            Platform::Bluesky => AppState { bluesky_authorized: false, ..s },
            Platform::Mastodon => AppState { mastodon_authorized: false, ..s },
            Platform::LinkedIn => s,
        }
    } else {
        s
    }
}

/// The platforms a broadcast goes to: those both ticked and authorized, in
/// the coordinator's fixed order.
pub open spec fn spec_broadcast_targets(s: AppState, sel: Selection) -> Seq<Platform> {
    (if sel.twitter && s.twitter_authorized {
        seq![Platform::Twitter]
    } else {
        Seq::empty()
    }) + (if sel.bluesky && s.bluesky_authorized {
        seq![Platform::Bluesky]
    } else {
        Seq::empty()
    }) + (if sel.mastodon && s.mastodon_authorized {
        seq![Platform::Mastodon]
    } else {
        Seq::empty()
    })
}

impl AppState {
    /// An authorized Bluesky session always holds a usable token and the
    /// account's subject id.
    pub open spec fn inv(self) -> bool {
        self.bluesky_authorized ==> {
            &&& self.bluesky_token matches Some(t) && t@.len() > 0
            &&& self.did is Some
        }
    }

    /// A fresh session: nothing authorized, nothing to say.
    pub fn new() -> (r: AppState)
        ensures
            !r.twitter_authorized,
            !r.mastodon_authorized,
            !r.bluesky_authorized,
            r.post_text@ == Seq::<char>::empty(),
            r.bluesky_token is None,
            r.did is None,
            r.inv(),
    {
        AppState {
            twitter_authorized: false,
            mastodon_authorized: false,
            bluesky_authorized: false,
            post_text: String::new(),
            bluesky_token: None,
            did: None,
        }
    }

    /// Records a granted Bluesky session: the token and subject id land in
    /// the session and the platform counts as authorized. Nothing else
    /// moves.
    pub fn record_bluesky_session(&mut self, access: String, did: String)
        requires
            access@.len() > 0,
        ensures
            *final(self) == (AppState {
                bluesky_authorized: true,
                bluesky_token: Some(access),
                did: Some(did),
                ..*old(self)
            }),
            final(self).inv(),
    {
        self.bluesky_token = Some(access);
        self.did = Some(did);
        self.bluesky_authorized = true;
    }

    /// Marks a platform authorized after a code-flow grant. Bluesky goes
    /// through [`AppState::record_bluesky_session`] instead, since its posts
    /// need the token and subject id in the session.
    pub fn set_authorized(&mut self, platform: Platform)
        requires
            platform != Platform::Bluesky,
            old(self).inv(),
        ensures
            *final(self) == (match platform {
                Platform::Twitter => AppState { twitter_authorized: true, ..*old(self) },
                Platform::Mastodon => AppState { mastodon_authorized: true, ..*old(self) },
                _ => *old(self),
            }),
            final(self).inv(),
    {
        match platform {
            Platform::Twitter => {
                self.twitter_authorized = true;
            },
            Platform::Mastodon => {
                self.mastodon_authorized = true;
            },
            _ => {},
        }
    }

    /// Puts a freshly granted record into the session, as a post's persist
    /// directive demands. Only Bluesky keeps its token in the session; for
    /// the other platforms the record lives in the credential store alone.
    pub fn apply_persist(&mut self, platform: Platform, record: &TokenRecord)
        requires
            old(self).inv(),
            record.wf(),
            platform == Platform::Bluesky ==> record.subject_id is Some,
        ensures
            platform == Platform::Bluesky ==> *final(self) == (AppState {
                bluesky_authorized: true,
                bluesky_token: Some(record.access_token),
                did: record.subject_id,
                ..*old(self)
            }),
            platform != Platform::Bluesky ==> *final(self) == *old(self),
            final(self).inv(),
    {
        if platform == Platform::Bluesky {
            match &record.subject_id {
                Some(did) => {
                    let access = clone_string(&record.access_token);
                    let did2 = clone_string(did);
                    self.bluesky_token = Some(access);
                    self.did = Some(did2);
                    self.bluesky_authorized = true;
                },
                None => {},
            }
        }
    }

    /// Applies one platform's post outcome; see [`spec_apply_result`].
    pub fn apply_result(&mut self, platform: Platform, result: &PostResult)
        requires
            old(self).inv(),
        ensures
            *final(self) == spec_apply_result(*old(self), platform, *result),
            final(self).inv(),
    {
        let revokes = match result {
            PostResult::Failed(PostFailure::AuthExhausted) => true,
            PostResult::Failed(PostFailure::InteractionRequired) => true,
            _ => false,
        };
        if revokes {
            match platform {
                Platform::Twitter => {
                    self.twitter_authorized = false;
                },
                Platform::Bluesky => {
                    self.bluesky_authorized = false;
                },
                Platform::Mastodon => {
                    self.mastodon_authorized = false;
                },
                Platform::LinkedIn => {},
            }
        }
    }

    /// The platforms the next broadcast goes to; see
    /// [`spec_broadcast_targets`].
    pub fn broadcast_targets(&self, sel: &Selection) -> (r: Vec<Platform>)
        ensures
            r@ == spec_broadcast_targets(*self, *sel),
    {
        let mut r: Vec<Platform> = Vec::new();
        if sel.twitter && self.twitter_authorized {
            r.push(Platform::Twitter);
        }
        if sel.bluesky && self.bluesky_authorized {
            r.push(Platform::Bluesky);
        }
        if sel.mastodon && self.mastodon_authorized {
            r.push(Platform::Mastodon);
        }
        proof {
            assert(r@ =~= spec_broadcast_targets(*self, *sel));
        }
        r
    }

    /// Ends a broadcast: the outbound message is cleared, whatever the
    /// per-platform outcomes were; nothing else moves.
    pub fn finish_broadcast(&mut self)
        ensures
            final(self).post_text@ == Seq::<char>::empty(),
            final(self).twitter_authorized == old(self).twitter_authorized,
            final(self).mastodon_authorized == old(self).mastodon_authorized,
            final(self).bluesky_authorized == old(self).bluesky_authorized,
            final(self).bluesky_token == old(self).bluesky_token,
            final(self).did == old(self).did,
            old(self).inv() ==> final(self).inv(),
    {
        self.post_text = String::new();
    }
}

impl Default for AppState {
    /// The same fresh session as [`AppState::new`].
    fn default() -> (r: AppState)
        ensures
            !r.twitter_authorized,
            !r.mastodon_authorized,
            !r.bluesky_authorized,
            r.post_text@ == Seq::<char>::empty(),
            r.bluesky_token is None,
            r.did is None,
            r.inv(),
    {
        AppState::new()
    }
}

/// Broadcast independence: when a broadcast reaches several platforms, each
/// platform's resulting authorization depends only on its own outcome, and
/// neither the outcomes nor their order touch the message text or another
/// platform's state. (The text is then cleared unconditionally by
/// [`AppState::finish_broadcast`].)
pub proof fn lemma_broadcast_independence(
    s: AppState,
    r_twitter: PostResult,
    r_bluesky: PostResult,
    r_mastodon: PostResult,
)
    ensures
        ({
            let s1 = spec_apply_result(s, Platform::Twitter, r_twitter);
            let s2 = spec_apply_result(s1, Platform::Bluesky, r_bluesky);
            let s3 = spec_apply_result(s2, Platform::Mastodon, r_mastodon);
            &&& s3.twitter_authorized == spec_apply_result(
                s,
                Platform::Twitter,
                r_twitter,
            ).twitter_authorized
            &&& s3.bluesky_authorized == spec_apply_result(
                s,
                Platform::Bluesky,
                r_bluesky,
            ).bluesky_authorized
            &&& s3.mastodon_authorized == spec_apply_result(
                s,
                Platform::Mastodon,
                r_mastodon,
            ).mastodon_authorized
            &&& s3.post_text == s.post_text
            &&& s3.bluesky_token == s.bluesky_token
            &&& s3.did == s.did
        }),
{
}

} // verus!
