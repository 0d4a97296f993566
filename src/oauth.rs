//! OAuth 2.0 Authorization Code Grant flow settings.

use vstd::prelude::*;

verus! {

/// Relies on oauth2's `PkceCodeChallenge::new_random_sha256`: a fresh
/// random PKCE code verifier (its SHA-256 challenge derives from it).
#[verifier::external_body]
fn new_pkce_verifier() -> (r: String) {
    oauth2::PkceCodeChallenge::new_random_sha256().1.secret().clone()
}

/// The settings of an Authorization Code Grant flow.
#[derive(Debug)]
pub struct AuthorizationCodeGrant {
    pub scopes: Vec<String>,
    /// The PKCE code verifier, when PKCE is used.
    pub pkce_verifier: Option<String>,
    pub redirect_host: String,
    pub redirect_port: u16,
}

impl AuthorizationCodeGrant {
    /// No scope, no PKCE, redirection to `localhost:9999`.
    pub fn new() -> (r: Self)
        ensures
            r.scopes@.len() == 0,
            r.pkce_verifier is None,
            r.redirect_host@ == "localhost"@,
            r.redirect_port == 9999,
    {
        AuthorizationCodeGrant {
            scopes: Vec::new(),
            pkce_verifier: None,
            redirect_host: "localhost".to_owned(),
            redirect_port: 9999,
        }
    }

    /// Asks for `scope` too.
    pub fn with_scope(self, scope: String) -> (r: Self)
        ensures
            r.scopes@ == self.scopes@.push(scope),
            r.pkce_verifier == self.pkce_verifier,
            r.redirect_host == self.redirect_host,
            r.redirect_port == self.redirect_port,
    {
        let mut scopes = self.scopes;
        scopes.push(scope);
        AuthorizationCodeGrant { scopes, ..self }
    }

    /// Uses PKCE, with a fresh code verifier.
    pub fn with_pkce(self) -> (r: Self)
        ensures
            r.pkce_verifier is Some,
            r.scopes == self.scopes,
            r.redirect_host == self.redirect_host,
            r.redirect_port == self.redirect_port,
    {
        AuthorizationCodeGrant { pkce_verifier: Some(new_pkce_verifier()), ..self }
    }

    /// Redirects to `host`.
    pub fn with_redirect_host(self, host: String) -> (r: Self)
        ensures
            r.redirect_host == host,
            r.scopes == self.scopes,
            r.pkce_verifier == self.pkce_verifier,
            r.redirect_port == self.redirect_port,
    {
        AuthorizationCodeGrant { redirect_host: host, ..self }
    }

    /// Redirects to port `port`.
    pub fn with_redirect_port(self, port: u16) -> (r: Self)
        ensures
            r.redirect_port == port,
            r.scopes == self.scopes,
            r.pkce_verifier == self.pkce_verifier,
            r.redirect_host == self.redirect_host,
    {
        AuthorizationCodeGrant { redirect_port: port, ..self }
    }
}

} // verus!
