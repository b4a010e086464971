//! The platform-independent token record: what the credential lifecycle
//! carries between the store, the session and the adapters.

use vstd::prelude::*;
use crate::text::{clone_opt_string, clone_string};

verus! {

/// One platform's credentials. The access token authorizes API calls; the
/// refresh token, where the platform grants one, buys a new access token
/// without the user's involvement; the subject id is the account identifier
/// that some platforms demand on post-creation calls.
pub struct TokenRecord {
    pub access_token: String,
    pub refresh_token: Option<String>,
    pub subject_id: Option<String>,
}

impl TokenRecord {
    /// A usable record carries a non-empty access token.
    pub open spec fn wf(self) -> bool {
        self.access_token@.len() > 0
    }

    /// An exact copy.
    pub fn duplicate(&self) -> (r: TokenRecord)
        ensures
            r == *self,
    {
        TokenRecord {
            access_token: clone_string(&self.access_token),
            refresh_token: clone_opt_string(&self.refresh_token),
            subject_id: clone_opt_string(&self.subject_id),
        }
    }
}

} // verus!
