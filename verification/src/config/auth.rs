//! The configured Google OAuth2 credential.

use vstd::prelude::*;

verus! {

/// The configured credential fields.
pub struct GoogleAuth {
    /// The OAuth2 client id.
    pub client_id: String,
    /// The OAuth2 client secret.
    pub client_secret: String,
    /// The long-lived refresh token.
    pub refresh_token: String,
}

impl GoogleAuth {
    /// The engine credential this configuration stands for, with no
    /// access token yet.
    pub fn parse(self) -> (r: crate::auth::GoogleAuth)
        ensures
            r.client_id@ == self.client_id@,
            r.client_secret@ == self.client_secret@,
            r.refresh_token@ == self.refresh_token@,
            r.access_token is None,
    {
        crate::auth::GoogleAuth::new(self.client_id, self.client_secret, self.refresh_token)
    }
}

} // verus!
