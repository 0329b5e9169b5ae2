//! The persisted credential settings of the outbound services.

use vstd::prelude::*;

verus! {

/// The persisted Discord credential: a bot token.
pub struct Discord {
    /// The bot token.
    pub token: String,
}

impl Discord {
    /// The token this setting stands for.
    pub fn parse(self) -> (r: String)
        ensures
            r@ == self.token@,
    {
        let Discord { token } = self;
        token
    }

    /// The persisted shape of a token.
    pub fn unparse(token: String) -> (r: Self)
        ensures
            r.token@ == token@,
    {
        Discord { token }
    }
}

/// The persisted Google credential.
pub struct Google {
    /// The OAuth2 client id.
    pub client_id: String,
    /// The OAuth2 client secret.
    pub client_secret: String,
    /// The long-lived refresh token.
    pub refresh_token: String,
}

impl Google {
    /// The engine credential this setting stands for, with no access
    /// token yet.
    pub fn parse(self) -> (r: crate::auth::GoogleAuth)
        ensures
            r.client_id@ == self.client_id@,
            r.client_secret@ == self.client_secret@,
            r.refresh_token@ == self.refresh_token@,
            r.access_token is None,
    {
        crate::auth::GoogleAuth::new(self.client_id, self.client_secret, self.refresh_token)
    }

    /// The persisted shape of an engine credential; a stored access token
    /// is not persisted.
    pub fn unparse(auth: crate::auth::GoogleAuth) -> (r: Self)
        ensures
            r.client_id@ == auth.client_id@,
            r.client_secret@ == auth.client_secret@,
            r.refresh_token@ == auth.refresh_token@,
    {
        let crate::auth::GoogleAuth { client_id, client_secret, refresh_token, access_token: _ } =
            auth;
        Google { client_id, client_secret, refresh_token }
    }
}

} // verus!
