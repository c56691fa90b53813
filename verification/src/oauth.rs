//! OAuth providers: the client configuration of each provider and the
//! authorization requests built from it with the `oauth2` crate.

use oauth2::basic::BasicClient;
use oauth2::{AuthUrl, ClientId, CsrfToken, PkceCodeChallenge, PkceCodeVerifier, RedirectUrl, Scope};
use vstd::prelude::*;
use vstd::utf8::*;
use crate::text::str_eq;

verus! {

/// Whether `oauth2` accepts `s` as an endpoint URL: the value of
/// `oauth2::AuthUrl::new(s).is_ok()`. `TokenUrl` and `RedirectUrl` are made by
/// the same `oauth2` macro and parse with the same `url::Url::parse`.
pub uninterp spec fn oauth2_url_parses(s: Seq<char>) -> bool;

/// The authorization URL that `oauth2` builds for a client with the given
/// authorization endpoint, client id and redirect URL, for the given scopes,
/// CSRF state and PKCE code verifier (challenge method S256).
pub uninterp spec fn oauth2_authorization_url(
    auth_url: Seq<char>,
    client_id: Seq<char>,
    redirect_url: Seq<char>,
    scopes: Seq<Seq<char>>,
    csrf_state: Seq<char>,
    pkce_verifier: Seq<char>,
) -> Seq<char>;

/// A character of the URL-safe base64 alphabet.
pub open spec fn is_base64url_char(c: char) -> bool {
    ('A' <= c <= 'Z') || ('a' <= c <= 'z') || ('0' <= c <= '9') || c == '-' || c == '_'
}

/// A secret of `len` URL-safe base64 characters.
pub open spec fn is_base64url_secret(s: Seq<char>, len: nat) -> bool {
    &&& s.len() == len
    &&& forall|i: int| 0 <= i < s.len() ==> is_base64url_char(#[trigger] s[i])
}

/// A PKCE code verifier as RFC 7636 allows it: 43 to 128 characters, each an
/// ASCII letter, digit or one of `-`, `.`, `_`, `~`.
pub open spec fn is_pkce_verifier(s: Seq<char>) -> bool {
    &&& 43 <= s.len() <= 128
    &&& forall|i: int|
        0 <= i < s.len() ==> is_base64url_char(#[trigger] s[i]) || s[i] == '.' || s[i] == '~'
}

/// Asks `oauth2` whether `s` parses as an endpoint URL
/// (`oauth2::AuthUrl::new`). The contract claims only that the answer is the
/// named predicate [`oauth2_url_parses`] of the text.
#[verifier::external_body]
fn url_parses(s: &str) -> (r: bool)
    ensures
        r == oauth2_url_parses(s@),
{
    AuthUrl::new(s.to_string()).is_ok()
}

/// A fresh random CSRF state from `oauth2::CsrfToken::new_random`: the
/// crate encodes 16 random bytes in unpadded URL-safe base64, so the claim
/// is 22 characters of that alphabet; which ones is left to chance.
#[verifier::external_body]
fn new_csrf_state() -> (r: String)
    ensures
        r@.len() == 22,
        forall|i: int| 0 <= i < r@.len() ==> is_base64url_char(#[trigger] r@[i]),
{
    CsrfToken::new_random().secret().clone()
}

/// A fresh random PKCE code verifier from
/// `oauth2::PkceCodeChallenge::new_random_sha256`: the crate encodes 32
/// random bytes in unpadded URL-safe base64, so the claim is 43 characters of
/// that alphabet; which ones is left to chance.
#[verifier::external_body]
fn new_pkce_verifier() -> (r: String)
    ensures
        r@.len() == 43,
        forall|i: int| 0 <= i < r@.len() ==> is_base64url_char(#[trigger] r@[i]),
{
    let (_challenge, verifier) = PkceCodeChallenge::new_random_sha256();
    verifier.secret().clone()
}

/// Builds the authorization URL with `oauth2`: a `BasicClient` with the given
/// client id, authorization endpoint and redirect URL, whose
/// `authorize_url` request gets the given CSRF state, the S256 challenge of the
/// verifier (`PkceCodeChallenge::from_code_verifier_sha256`) and the scopes.
/// The URLs must parse and the verifier must be 43 to 128 bytes long (`oauth2`
/// panics otherwise). The contract claims that the result is the named
/// function [`oauth2_authorization_url`] of the arguments.
#[verifier::external_body]
fn build_authorization_url(
    auth_url: &str,
    client_id: &str,
    redirect_url: &str,
    scopes: &Vec<String>,
    csrf_state: &str,
    pkce_verifier: &str,
) -> (r: String)
    requires
        oauth2_url_parses(auth_url@),
        oauth2_url_parses(redirect_url@),
        43 <= encode_utf8(pkce_verifier@).len() <= 128,
    ensures
        r@ == oauth2_authorization_url(
            auth_url@,
            client_id@,
            redirect_url@,
            scopes@.map_values(|s: String| s@),
            csrf_state@,
            pkce_verifier@,
        ),
{
    let client = BasicClient::new(ClientId::new(client_id.to_string()))
        .set_auth_uri(AuthUrl::new(auth_url.to_string()).unwrap())
        .set_redirect_uri(RedirectUrl::new(redirect_url.to_string()).unwrap());
    let state = CsrfToken::new(csrf_state.to_string());
    let verifier = PkceCodeVerifier::new(pkce_verifier.to_string());
    let (url, _state) = client
        .authorize_url(move || state)
        .set_pkce_challenge(PkceCodeChallenge::from_code_verifier_sha256(&verifier))
        .add_scopes(scopes.iter().map(|s| Scope::new(s.clone())))
        .url();
    url.to_string()
}

/// The configuration of an OAuth client: its credentials and endpoints.
pub struct OauthClient {
    client_id: String,
    client_secret: String,
    auth_url: String,
    token_url: String,
    redirect_url: String,
}

/// The abstract value of an [`OauthClient`].
pub struct OauthClientView {
    pub client_id: Seq<char>,
    pub client_secret: Seq<char>,
    pub auth_url: Seq<char>,
    pub token_url: Seq<char>,
    pub redirect_url: Seq<char>,
}

/// All three endpoints of a client configuration parse as URLs.
pub open spec fn endpoints_parse(auth_url: Seq<char>, token_url: Seq<char>, redirect_url: Seq<char>) -> bool {
    &&& oauth2_url_parses(auth_url)
    &&& oauth2_url_parses(token_url)
    &&& oauth2_url_parses(redirect_url)
}

impl View for OauthClient {
    type V = OauthClientView;

    closed spec fn view(&self) -> OauthClientView {
        OauthClientView {
            client_id: self.client_id@,
            client_secret: self.client_secret@,
            auth_url: self.auth_url@,
            token_url: self.token_url@,
            redirect_url: self.redirect_url@,
        }
    }
}

impl OauthClient {
    #[verifier::type_invariant]
    spec fn endpoints_valid(&self) -> bool {
        endpoints_parse(self.auth_url@, self.token_url@, self.redirect_url@)
    }

    /// The client id.
    pub fn client_id(&self) -> (r: &String)
        ensures
            r@ == self@.client_id,
    {
        &self.client_id
    }

    /// The client secret.
    pub fn client_secret(&self) -> (r: &String)
        ensures
            r@ == self@.client_secret,
    {
        &self.client_secret
    }

    /// The authorization endpoint.
    pub fn auth_url(&self) -> (r: &String)
        ensures
            r@ == self@.auth_url,
            oauth2_url_parses(r@),
    {
        proof {
            use_type_invariant(self);
        }
        &self.auth_url
    }

    /// The token endpoint.
    pub fn token_url(&self) -> (r: &String)
        ensures
            r@ == self@.token_url,
            oauth2_url_parses(r@),
    {
        proof {
            use_type_invariant(self);
        }
        &self.token_url
    }

    /// The redirect URL.
    pub fn redirect_url(&self) -> (r: &String)
        ensures
            r@ == self@.redirect_url,
            oauth2_url_parses(r@),
    {
        proof {
            use_type_invariant(self);
        }
        &self.redirect_url
    }
}

impl Clone for OauthClient {
    /// A copy of the configuration.
    fn clone(&self) -> (r: OauthClient)
        ensures
            r@ == self@,
    {
        proof {
            use_type_invariant(self);
        }
        OauthClient {
            client_id: self.client_id.clone(),
            client_secret: self.client_secret.clone(),
            auth_url: self.auth_url.clone(),
            token_url: self.token_url.clone(),
            redirect_url: self.redirect_url.clone(),
        }
    }
}

/// A client configuration from its credentials and endpoints. Every endpoint
/// must parse as a URL.
pub fn oauth_client(
    client_id: String,
    client_secret: String,
    auth_url: &str,
    token_url: &str,
    redirect_url: &str,
) -> (c: OauthClient)
    requires
        endpoints_parse(auth_url@, token_url@, redirect_url@),
    ensures
        c@ == (OauthClientView {
            client_id: client_id@,
            client_secret: client_secret@,
            auth_url: auth_url@,
            token_url: token_url@,
            redirect_url: redirect_url@,
        }),
{
    OauthClient {
        client_id,
        client_secret,
        auth_url: auth_url.to_owned(),
        token_url: token_url.to_owned(),
        redirect_url: redirect_url.to_owned(),
    }
}

/// [`oauth_client`] when every endpoint parses as a URL, `None` otherwise.
pub fn try_oauth_client(
    client_id: String,
    client_secret: String,
    auth_url: &str,
    token_url: &str,
    redirect_url: &str,
) -> (r: Option<OauthClient>)
    ensures
        r is Some <==> endpoints_parse(auth_url@, token_url@, redirect_url@),
        r matches Some(c) ==> c@ == (OauthClientView {
            client_id: client_id@,
            client_secret: client_secret@,
            auth_url: auth_url@,
            token_url: token_url@,
            redirect_url: redirect_url@,
        }),
{
    if url_parses(auth_url) && url_parses(token_url) && url_parses(redirect_url) {
        Some(oauth_client(client_id, client_secret, auth_url, token_url, redirect_url))
    } else {
        None
    }
}

/// An authorization request: where to send the user, and the secrets to keep
/// until the provider calls back.
pub struct AuthRequest {
    pub url: String,
    pub csrf_state: String,
    pub pkce_verifier: String,
}

/// One OAuth provider: its client, the URL of its user-info endpoint and the
/// scopes requested from it.
pub struct Provider {
    pub client: OauthClient,
    pub info: String,
    scopes: Vec<String>,
}

/// The abstract value of a [`Provider`].
pub struct ProviderView {
    pub client: OauthClientView,
    pub info: Seq<char>,
    pub scopes: Seq<Seq<char>>,
}

impl View for Provider {
    type V = ProviderView;

    closed spec fn view(&self) -> ProviderView {
        ProviderView {
            client: self.client@,
            info: self.info@,
            scopes: self.scopes@.map_values(|s: String| s@),
        }
    }
}

/// The authorization URL of a provider for a CSRF state and a PKCE verifier.
pub open spec fn authorization_url_for(p: ProviderView, csrf_state: Seq<char>, pkce_verifier: Seq<char>) -> Seq<char> {
    oauth2_authorization_url(
        p.client.auth_url,
        p.client.client_id,
        p.client.redirect_url,
        p.scopes,
        csrf_state,
        pkce_verifier,
    )
}

/// Every authorization request asks for the provider's configured scopes,
/// at its authorization endpoint, with its client id and redirect URL,
/// whatever the CSRF state and PKCE verifier: two requests of one provider
/// differ only in their state and verifier.
pub proof fn lemma_authorization_url_uses_provider(
    p: ProviderView,
    csrf_state: Seq<char>,
    pkce_verifier: Seq<char>,
)
    ensures
        authorization_url_for(p, csrf_state, pkce_verifier) == oauth2_authorization_url(
            p.client.auth_url,
            p.client.client_id,
            p.client.redirect_url,
            p.scopes,
            csrf_state,
            pkce_verifier,
        ),
{
}

impl Provider {
    /// A provider from its client, user-info URL and scopes.
    pub fn new(client: OauthClient, info: String, scopes: Vec<&str>) -> (p: Provider)
        ensures
            p@ == (ProviderView {
                client: client@,
                info: info@,
                scopes: scopes@.map_values(|s: &str| s@),
            }),
    {
        let mut owned: Vec<String> = Vec::new();
        let n: usize = scopes.len();
        for i in 0..n
            invariant
                n == scopes@.len(),
                owned@.len() == i,
                forall|j: int| 0 <= j < i ==> #[trigger] owned@[j]@ == scopes@[j]@,
        {
            owned.push(scopes[i].to_owned());
        }
        let p = Provider { client, info, scopes: owned };
        assert(p@.scopes =~= scopes@.map_values(|s: &str| s@));
        p
    }

    /// The authorization URL for a given CSRF state and PKCE verifier.
    pub fn authorization_url(&self, csrf_state: &str, pkce_verifier: &str) -> (r: String)
        requires
            is_pkce_verifier(pkce_verifier@),
        ensures
            r@ == authorization_url_for(self@, csrf_state@, pkce_verifier@),
    {
        proof {
            assert(is_ascii_chars(pkce_verifier@));
            is_ascii_chars_encode_utf8(pkce_verifier@);
        }
        let auth_url = self.client.auth_url();
        let redirect_url = self.client.redirect_url();
        build_authorization_url(
            auth_url.as_str(),
            self.client.client_id().as_str(),
            redirect_url.as_str(),
            &self.scopes,
            csrf_state,
            pkce_verifier,
        )
    }

    /// A new authorization request with a fresh CSRF state and PKCE verifier.
    pub fn auth_url(&self) -> (r: AuthRequest)
        ensures
            r.url@ == authorization_url_for(self@, r.csrf_state@, r.pkce_verifier@),
            is_base64url_secret(r.pkce_verifier@, 43),
            is_base64url_secret(r.csrf_state@, 22),
    {
        let csrf_state = new_csrf_state();
        let pkce_verifier = new_pkce_verifier();
        assert(is_pkce_verifier(pkce_verifier@));
        let url = self.authorization_url(csrf_state.as_str(), pkce_verifier.as_str());
        AuthRequest { url, csrf_state, pkce_verifier }
    }
}

impl Clone for Provider {
    /// A copy of the provider.
    fn clone(&self) -> (r: Provider)
        ensures
            r@ == self@,
    {
        let scopes = self.scopes.clone();
        assert(scopes@ =~= self.scopes@);
        Provider { client: self.client.clone(), info: self.info.clone(), scopes }
    }
}

/// The providers the server offers.
pub struct OAuthProvider {
    pub google: Provider,
    pub facebook: Provider,
}

impl Clone for OAuthProvider {
    /// A copy of the providers.
    fn clone(&self) -> (r: OAuthProvider)
        ensures
            r.google@ == self.google@,
            r.facebook@ == self.facebook@,
    {
        OAuthProvider { google: self.google.clone(), facebook: self.facebook.clone() }
    }
}

/// Whether an OAuth method name selects Facebook; every other name,
/// `"google"` included, selects Google.
pub open spec fn selects_facebook(oauth_type: Seq<char>) -> bool {
    oauth_type == "facebook"@
}

impl OAuthProvider {
    /// The providers, Google and Facebook.
    pub fn new(google: Provider, facebook: Provider) -> (r: OAuthProvider)
        ensures
            r.google@ == google@,
            r.facebook@ == facebook@,
    {
        OAuthProvider { google, facebook }
    }

    /// The provider named by `oauth_type`: Facebook for `"facebook"`, Google
    /// for `"google"` and for every unknown name.
    pub fn get_provider(&self, oauth_type: &str) -> (r: &Provider)
        ensures
            r@ == (if selects_facebook(oauth_type@) {
                self.facebook@
            } else {
                self.google@
            }),
    {
        proof {
            reveal_strlit("google");
            reveal_strlit("facebook");
        }
        if str_eq(oauth_type, "google") {
            assert(oauth_type@ != "facebook"@) by {
                assert(oauth_type@[0] != "facebook"@[0]);
            }
            &self.google
        } else if str_eq(oauth_type, "facebook") {
            &self.facebook
        } else {
            &self.google
        }
    }
}

/// The authorization endpoint of Google.
pub const GOOGLE_AUTH_URL: &'static str = "https://accounts.google.com/o/oauth2/v2/auth";

/// The token endpoint of Google.
pub const GOOGLE_TOKEN_URL: &'static str = "https://www.googleapis.com/oauth2/v3/token";

/// The user-info endpoint of Google.
pub const GOOGLE_USER_INFO_URL: &'static str = "https://www.googleapis.com/oauth2/v3/userinfo";

/// The authorization endpoint of Facebook.
pub const FACEBOOK_AUTH_URL: &'static str = "https://www.facebook.com/v20.0/dialog/oauth";

/// The token endpoint of Facebook.
pub const FACEBOOK_TOKEN_URL: &'static str = "https://graph.facebook.com/oauth/access_token";

/// The user-info endpoint of Facebook.
pub const FACEBOOK_USER_INFO_URL: &'static str = "https://graph.facebook.com/me?fields=name,email";

/// The redirect URL both providers are configured with.
pub const REDIRECT_URL: &'static str = "";

/// The Google provider for the given credentials: its endpoints, the
/// user-info URL and the scopes `email` and `profile`.
pub open spec fn google_provider(client_id: Seq<char>, client_secret: Seq<char>) -> ProviderView {
    ProviderView {
        client: OauthClientView {
            client_id,
            client_secret,
            auth_url: GOOGLE_AUTH_URL@,
            token_url: GOOGLE_TOKEN_URL@,
            redirect_url: REDIRECT_URL@,
        },
        info: GOOGLE_USER_INFO_URL@,
        scopes: seq!["email"@, "profile"@],
    }
}

/// The Facebook provider for the given credentials: its endpoints, the
/// user-info URL and the scope `email`.
pub open spec fn facebook_provider(client_id: Seq<char>, client_secret: Seq<char>) -> ProviderView {
    ProviderView {
        client: OauthClientView {
            client_id,
            client_secret,
            auth_url: FACEBOOK_AUTH_URL@,
            token_url: FACEBOOK_TOKEN_URL@,
            redirect_url: REDIRECT_URL@,
        },
        info: FACEBOOK_USER_INFO_URL@,
        scopes: seq!["email"@],
    }
}

/// The providers the server offers, Google and Facebook, for the given
/// client credentials; `None` when an endpoint of either does not parse as
/// a URL.
pub fn oauth_providers(
    google_id: String,
    google_secret: String,
    facebook_id: String,
    facebook_secret: String,
) -> (r: Option<OAuthProvider>)
    ensures
        r is Some <==> endpoints_parse(GOOGLE_AUTH_URL@, GOOGLE_TOKEN_URL@, REDIRECT_URL@)
            && endpoints_parse(FACEBOOK_AUTH_URL@, FACEBOOK_TOKEN_URL@, REDIRECT_URL@),
        r matches Some(p) ==> p.google@ == google_provider(google_id@, google_secret@)
            && p.facebook@ == facebook_provider(facebook_id@, facebook_secret@),
{
    let ghost (gi, gs, fi, fs) = (google_id@, google_secret@, facebook_id@, facebook_secret@);
    let google_client = match try_oauth_client(
        google_id,
        google_secret,
        GOOGLE_AUTH_URL,
        GOOGLE_TOKEN_URL,
        REDIRECT_URL,
    ) {
        Some(c) => c,
        None => return None,
    };
    let facebook_client = match try_oauth_client(
        facebook_id,
        facebook_secret,
        FACEBOOK_AUTH_URL,
        FACEBOOK_TOKEN_URL,
        REDIRECT_URL,
    ) {
        Some(c) => c,
        None => return None,
    };
    let google_scopes: Vec<&str> = vec!["email", "profile"];
    let facebook_scopes: Vec<&str> = vec!["email"];
    let google = Provider::new(google_client, GOOGLE_USER_INFO_URL.to_owned(), google_scopes);
    let facebook = Provider::new(facebook_client, FACEBOOK_USER_INFO_URL.to_owned(), facebook_scopes);
    assert(google@.scopes =~= seq!["email"@, "profile"@]);
    assert(facebook@.scopes =~= seq!["email"@]);
    assert(google@ == google_provider(gi, gs));
    assert(facebook@ == facebook_provider(fi, fs));
    Some(OAuthProvider::new(google, facebook))
}

} // verus!
