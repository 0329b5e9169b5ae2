//! The OAuth2 token lifecycle: a lazily refreshed credential.
//!
//! The credential holds a client id, a client secret, a refresh token and,
//! once obtained, an access token with its expiry instant.  On every
//! access the current time is compared to the expiry: a request strictly
//! before the expiry uses the stored token; one at or after it requires a
//! refresh exchange first.  The exchange itself is an external network
//! call: the caller performs it and hands the new token back, and the
//! decision logic around it is verified for every outcome.  Refresh
//! failures are the caller's to surface; this component never retries.

use vstd::prelude::*;

use crate::json::{JsonValue, ValueV, get_key};

verus! {

/// An access token with its expiry, as seconds since the Unix epoch.
pub struct AccessToken {
    /// The bearer token.
    pub token: String,
    /// The instant the token expires, in seconds since the Unix epoch; the
    /// token is usable strictly before this instant.
    pub expires_at: u64,
}

/// A lazily refreshed OAuth2 credential.
pub struct GoogleAuth {
    /// The OAuth2 client id.
    pub client_id: String,
    /// The OAuth2 client secret.
    pub client_secret: String,
    /// The long-lived refresh token.
    pub refresh_token: String,
    /// The current access token, once one has been obtained.
    pub access_token: Option<AccessToken>,
}

/// What an access-token request at time `now` must do.
pub enum TokenQuery {
    /// The stored token is still valid; use it.
    Ready(String),
    /// No usable token: a refresh exchange must run first.
    RefreshNeeded,
}

impl GoogleAuth {
    /// A credential with no access token yet; the first access will
    /// require a refresh.
    pub fn new(client_id: String, client_secret: String, refresh_token: String) -> (r: Self)
        ensures
            r.client_id@ == client_id@,
            r.client_secret@ == client_secret@,
            r.refresh_token@ == refresh_token@,
            r.access_token is None,
    {
        GoogleAuth { client_id, client_secret, refresh_token, access_token: None }
    }

    /// A request at `now` needs a refresh exactly when no token is stored
    /// or `now` is at or past the expiry; a request strictly before the
    /// expiry does not.
    pub open spec fn needs_refresh(&self, now: u64) -> bool {
        match self.access_token {
            None => true,
            Some(t) => now >= t.expires_at,
        }
    }

    /// Answers an access-token request at time `now`: the stored token
    /// exactly when it has not expired, else the demand for a refresh.
    pub fn token_query(&self, now: u64) -> (r: TokenQuery)
        ensures
            r is Ready <==> !self.needs_refresh(now),
            r matches TokenQuery::Ready(t) ==> self.access_token matches Some(at) && t@
                == at.token@,
    {
        match &self.access_token {
            Some(at) => {
                if now < at.expires_at {
                    TokenQuery::Ready(at.token.clone())
                } else {
                    TokenQuery::RefreshNeeded
                }
            },
            None => TokenQuery::RefreshNeeded,
        }
    }

    /// Installs the result of a refresh exchange performed at time `now`:
    /// the new token is valid for `expires_in` seconds from `now`.  The
    /// identity fields are untouched.
    pub fn apply_refresh(&mut self, now: u64, token: String, expires_in: u64)
        requires
            now + expires_in <= u64::MAX,
        ensures
            final(self).client_id@ == old(self).client_id@,
            final(self).client_secret@ == old(self).client_secret@,
            final(self).refresh_token@ == old(self).refresh_token@,
            final(self).access_token matches Some(at) && at.token@ == token@ && at.expires_at
                == now + expires_in,
    {
        self.access_token = Some(AccessToken { token, expires_at: now + expires_in });
    }
}

/// The refresh boundary: with a stored token, a request exactly at the
/// expiry instant triggers a refresh, and one strictly before it does not.
pub proof fn lemma_token_refresh_boundary(a: GoogleAuth, t: AccessToken, now: u64)
    requires
        a.access_token == Some(t),
    ensures
        now == t.expires_at ==> a.needs_refresh(now),
        now < t.expires_at ==> !a.needs_refresh(now),
{
}

fn push_pair(out: &mut Vec<(String, String)>, k: &str, v: String)
    ensures
        final(out)@.len() == old(out)@.len() + 1,
        crate::html::pairs_view(final(out)@) == crate::html::pairs_view(old(out)@).push(
            (k@, v@),
        ),
{
    let ks = k.to_owned();
    out.push((ks, v));
    proof {
        assert(crate::html::pairs_view(out@) =~= crate::html::pairs_view(old(out)@).push(
            (k@, v@),
        ));
    }
}

/// The form body of the refresh-token exchange: the authorization code is
/// traded for a long-lived refresh token.
pub fn refresh_token_request(client_id: &str, client_secret: &str, access_code: &str) -> (r: Vec<
    (String, String),
>)
    ensures
        crate::html::pairs_view(r@) =~= seq![
            ("client_id"@, client_id@),
            ("client_secret"@, client_secret@),
            ("code"@, access_code@),
            ("redirect_uri"@, "urn:ietf:wg:oauth:2.0:oob"@),
            ("grant_type"@, "authorization_code"@),
        ],
{
    let mut out: Vec<(String, String)> = Vec::new();
    proof {
        assert(crate::html::pairs_view(out@) =~= Seq::<(Seq<char>, Seq<char>)>::empty());
    }
    push_pair(&mut out, "client_id", client_id.to_owned());
    push_pair(&mut out, "client_secret", client_secret.to_owned());
    push_pair(&mut out, "code", access_code.to_owned());
    push_pair(&mut out, "redirect_uri", String::from_str("urn:ietf:wg:oauth:2.0:oob"));
    push_pair(&mut out, "grant_type", String::from_str("authorization_code"));
    out
}

/// The form body of the access-token exchange: the refresh token is traded
/// for a fresh access token.
pub fn access_token_request(client_id: &str, client_secret: &str, refresh_token: &str) -> (r: Vec<
    (String, String),
>)
    ensures
        crate::html::pairs_view(r@) =~= seq![
            ("client_id"@, client_id@),
            ("client_secret"@, client_secret@),
            ("refresh_token"@, refresh_token@),
            ("redirect_uri"@, "urn:ietf:wg:oauth:2.0:oob"@),
            ("grant_type"@, "refresh_token"@),
        ],
{
    let mut out: Vec<(String, String)> = Vec::new();
    proof {
        assert(crate::html::pairs_view(out@) =~= Seq::<(Seq<char>, Seq<char>)>::empty());
    }
    push_pair(&mut out, "client_id", client_id.to_owned());
    push_pair(&mut out, "client_secret", client_secret.to_owned());
    push_pair(&mut out, "refresh_token", refresh_token.to_owned());
    push_pair(&mut out, "redirect_uri", String::from_str("urn:ietf:wg:oauth:2.0:oob"));
    push_pair(&mut out, "grant_type", String::from_str("refresh_token"));
    out
}

/// The fields of a successful access-token response: the token under
/// `access_token` and the non-negative integer under `expires_in`.
pub open spec fn oauth2_response_spec(v: ValueV) -> Option<(Seq<char>, u64)> {
    match get_key(v, "access_token"@) {
        Some(ValueV::Str(t)) => match get_key(v, "expires_in"@) {
            Some(ValueV::UInt(u)) => Some((t, u)),
            Some(ValueV::Int(i)) => if i >= 0 {
                Some((t, i as u64))
            } else {
                None
            },
            _ => None,
        },
        _ => None,
    }
}

/// Reads an access-token response: `Some` exactly when the document holds
/// a string `access_token` and a non-negative integer `expires_in`.
pub fn parse_oauth2_response(v: &JsonValue) -> (r: Option<(String, u64)>)
    ensures
        match r {
            Some(p) => oauth2_response_spec(v@) == Some((p.0@, p.1)),
            None => oauth2_response_spec(v@) is None,
        },
{
    let key_token = String::from_str("access_token");
    let key_exp = String::from_str("expires_in");
    match v.get(&key_token) {
        Some(JsonValue::Str(t)) => match v.get(&key_exp) {
            Some(JsonValue::UInt(u)) => Some((t.clone(), *u)),
            Some(JsonValue::Int(i)) => {
                if *i >= 0 {
                    Some((t.clone(), *i as u64))
                } else {
                    None
                }
            },
            _ => None,
        },
        _ => None,
    }
}

/// The field of a successful refresh-token response: the string under
/// `refresh_token`.
pub open spec fn refresh_response_spec(v: ValueV) -> Option<Seq<char>> {
    match get_key(v, "refresh_token"@) {
        Some(ValueV::Str(t)) => Some(t),
        _ => None,
    }
}

/// Reads a refresh-token response: `Some` exactly when the document holds
/// a string `refresh_token`.
pub fn parse_refresh_response(v: &JsonValue) -> (r: Option<String>)
    ensures
        match r {
            Some(t) => refresh_response_spec(v@) == Some(t@),
            None => refresh_response_spec(v@) is None,
        },
{
    let key = String::from_str("refresh_token");
    match v.get(&key) {
        Some(JsonValue::Str(t)) => Some(t.clone()),
        _ => None,
    }
}

/// The token endpoint of the OAuth2 exchange.
pub fn token_endpoint_url() -> (r: String)
    ensures
        r@ == "https://accounts.google.com/o/oauth2/token"@,
{
    String::from_str("https://accounts.google.com/o/oauth2/token")
}

/// The consent-page URL a user opens to obtain an authorization code for
/// the given scope and client.
pub fn consent_url(scope: &str, client_id: &str) -> (r: String)
    ensures
        r@ == "https://accounts.google.com/o/oauth2/auth?scope="@ + scope@ + "&client_id="@
            + client_id@ + "&response_type=code&redirect_uri=urn:ietf:wg:oauth:2.0:oob"@,
{
    let mut out = String::from_str("https://accounts.google.com/o/oauth2/auth?scope=");
    out.append(scope);
    out.append("&client_id=");
    out.append(client_id);
    out.append("&response_type=code&redirect_uri=urn:ietf:wg:oauth:2.0:oob");
    out
}

} // verus!
