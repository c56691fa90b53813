//! OAuth sign-in: redirecting the user to the provider, and checking the
//! provider's callback against what the session remembered.

use vstd::prelude::*;
use crate::creds::{AuthReply, Creds, CredsView, OauthCreds};
use crate::json::auth::{AuthzResp, TokenResponse, UserInfo};
use crate::json::{
    error, error_view, ok, ok_view, CollariResponse, ResponseView, STATUS_BAD_REQUEST,
};
use crate::oauth::{
    authorization_url_for, is_base64url_secret, selects_facebook, AuthRequest, OAuthProvider,
    Provider, ProviderView,
};
use crate::session::SessionData;

verus! {

/// Session key of the CSRF state of a pending authorization.
pub const CSRF_STATE_KEY: &'static str = "oauth.csrf-state";

/// Session key of the PKCE verifier of a pending authorization.
pub const PKCE_VERIFIER_KEY: &'static str = "oauth.pkce-code";

/// Session key of the provider token of an OAuth user who must still sign up.
pub const OAUTH_TOKEN_KEY: &'static str = "oauth.token";

/// Session key of the OAuth method of a user who must still sign up.
pub const OAUTH_METHOD_KEY: &'static str = "oauth.method";

/// The four session keys are different from each other.
pub proof fn lemma_session_keys_distinct()
    ensures
        CSRF_STATE_KEY@ != PKCE_VERIFIER_KEY@,
        CSRF_STATE_KEY@ != OAUTH_TOKEN_KEY@,
        CSRF_STATE_KEY@ != OAUTH_METHOD_KEY@,
        PKCE_VERIFIER_KEY@ != OAUTH_TOKEN_KEY@,
        PKCE_VERIFIER_KEY@ != OAUTH_METHOD_KEY@,
        OAUTH_TOKEN_KEY@ != OAUTH_METHOD_KEY@,
{
    reveal_strlit("oauth.csrf-state");
    reveal_strlit("oauth.pkce-code");
    reveal_strlit("oauth.token");
    reveal_strlit("oauth.method");
    assert(CSRF_STATE_KEY@.len() != PKCE_VERIFIER_KEY@.len());
    assert(CSRF_STATE_KEY@.len() != OAUTH_TOKEN_KEY@.len());
    assert(CSRF_STATE_KEY@.len() != OAUTH_METHOD_KEY@.len());
    assert(PKCE_VERIFIER_KEY@.len() != OAUTH_TOKEN_KEY@.len());
    assert(PKCE_VERIFIER_KEY@.len() != OAUTH_METHOD_KEY@.len());
    assert(OAUTH_TOKEN_KEY@[6] != OAUTH_METHOD_KEY@[6]);
}

/// A redirect to another URL.
pub struct Redirect {
    pub location: String,
}

impl View for Redirect {
    type V = Seq<char>;

    open spec fn view(&self) -> Seq<char> {
        self.location@
    }
}

/// The session after an authorization request was started: it remembers the
/// CSRF state and the PKCE verifier.
pub open spec fn oauth_session(
    s: Map<Seq<char>, Seq<char>>,
    csrf_state: Seq<char>,
    pkce_verifier: Seq<char>,
) -> Map<Seq<char>, Seq<char>> {
    s.insert(CSRF_STATE_KEY@, csrf_state).insert(PKCE_VERIFIER_KEY@, pkce_verifier)
}

/// The provider that an OAuth method name selects.
pub open spec fn chosen_provider(providers: &OAuthProvider, oauth_method: Seq<char>) -> ProviderView {
    if selects_facebook(oauth_method) {
        providers.facebook@
    } else {
        providers.google@
    }
}

/// Starts an authorization with a prepared request: remembers its CSRF state
/// and PKCE verifier in the session and redirects the user to its URL.
pub fn oauth_redirect(session: &mut SessionData, request: AuthRequest) -> (r: CollariResponse<Redirect>)
    ensures
        final(session)@ == oauth_session(old(session)@, request.csrf_state@, request.pkce_verifier@),
        r@ == ok_view(request.url@),
{
    session.insert(CSRF_STATE_KEY, request.csrf_state);
    session.insert(PKCE_VERIFIER_KEY, request.pkce_verifier);
    ok(Redirect { location: request.url })
}

/// `POST /oauth/:oauth_method`: starts an authorization with the selected
/// provider, with a fresh CSRF state and PKCE verifier that the session
/// remembers, and redirects the user to the provider's authorization URL
/// for them.
pub fn oauth(session: &mut SessionData, providers: &OAuthProvider, oauth_method: &str) -> (r: CollariResponse<Redirect>)
    ensures
        exists|csrf_state: Seq<char>, pkce_verifier: Seq<char>|
            {
                &&& is_base64url_secret(pkce_verifier, 43)
                &&& is_base64url_secret(csrf_state, 22)
                &&& final(session)@ == oauth_session(old(session)@, csrf_state, pkce_verifier)
                &&& r@ == ok_view(
                    authorization_url_for(
                        chosen_provider(providers, oauth_method@),
                        csrf_state,
                        pkce_verifier,
                    ),
                )
            },
{
    let provider = providers.get_provider(oauth_method);
    let request = provider.auth_url();
    let ghost csrf_state = request.csrf_state@;
    let ghost pkce_verifier = request.pkce_verifier@;
    let r = oauth_redirect(session, request);
    assert(is_base64url_secret(pkce_verifier, 43) && is_base64url_secret(csrf_state, 22)
        && final(session)@ == oauth_session(
        old(session)@,
        csrf_state,
        pkce_verifier,
    ));
    r
}

/// What the callback checks decide: the session afterwards, and either the
/// PKCE verifier to exchange the code with or the message to refuse with.
///
/// The CSRF state is taken out of the session first; without one the
/// callback is refused, and so it is when it differs from the state the
/// provider echoed back. Only then is the PKCE verifier taken out; without
/// one the callback is refused too.
pub open spec fn callback_check(s: Map<Seq<char>, Seq<char>>, state: Seq<char>) -> (
    Map<Seq<char>, Seq<char>>,
    Result<Seq<char>, Seq<char>>,
) {
    if !s.contains_key(CSRF_STATE_KEY@) {
        (s, Err("state not found"@))
    } else if s[CSRF_STATE_KEY@] != state {
        (s.remove(CSRF_STATE_KEY@), Err("state don't match"@))
    } else {
        let s1 = s.remove(CSRF_STATE_KEY@);
        if !s1.contains_key(PKCE_VERIFIER_KEY@) {
            (s1, Err("pkce not found"@))
        } else {
            (s1.remove(PKCE_VERIFIER_KEY@), Ok(s1[PKCE_VERIFIER_KEY@]))
        }
    }
}

/// The code exchange that a checked callback asks for: the provider to ask,
/// the authorization code and the PKCE verifier.
pub struct TokenExchange<'a> {
    pub provider: &'a Provider,
    pub code: String,
    pub pkce_verifier: String,
}

/// `GET /oauth/:oauth_method/callback`, first part: checks the provider's
/// callback against the session. Either the code exchange to perform, or
/// the 400 response the callback is refused with.
pub fn callback<'a>(
    session: &mut SessionData,
    providers: &'a OAuthProvider,
    oauth_method: &str,
    query: AuthzResp,
) -> (r: Result<TokenExchange<'a>, CollariResponse<TokenResponse>>)
    ensures
        final(session)@ == callback_check(old(session)@, query.state@).0,
        match callback_check(old(session)@, query.state@).1 {
            Ok(pkce_verifier) => r matches Ok(ex) && ex.pkce_verifier@ == pkce_verifier
                && ex.code@ == query.code@ && ex.provider@ == chosen_provider(
                providers,
                oauth_method@,
            ),
            Err(message) => r matches Err(resp) && resp@ == error_view::<Option<Seq<char>>>(
                STATUS_BAD_REQUEST,
                message,
            ),
        },
{
    match session.remove(CSRF_STATE_KEY) {
        Some(old_state) => {
            if old_state != query.state {
                return Err(error(STATUS_BAD_REQUEST, "state don't match"));
            }
        },
        None => {
            return Err(error(STATUS_BAD_REQUEST, "state not found"));
        },
    }
    let pkce_verifier = match session.remove(PKCE_VERIFIER_KEY) {
        Some(p) => p,
        None => {
            return Err(error(STATUS_BAD_REQUEST, "pkce not found"));
        },
    };
    let provider = providers.get_provider(oauth_method);
    Ok(TokenExchange { provider, code: query.code, pkce_verifier })
}

/// `GET /oauth/:oauth_method/callback`, second part: the credentials to log
/// the user in with, from the provider's access token and user info.
pub fn callback_creds(token: &str, oauth_method: &str, user_info: UserInfo) -> (c: Creds)
    ensures
        c@ == (CredsView::Oauth {
            token: token@,
            method: oauth_method@,
            email: user_info.email@,
            name: user_info.name@,
        }),
{
    Creds::Oauth(
        OauthCreds {
            token: token.to_owned(),
            method: oauth_method.to_owned(),
            email: user_info.email,
            name: user_info.name,
        },
    )
}

/// What the end of the callback decides from the login attempt: the session
/// afterwards and the response. A known user gets the service's token; an
/// unknown one gets no token, and the session keeps the provider token and
/// the method for the signup that follows.
pub open spec fn callback_finish(
    s: Map<Seq<char>, Seq<char>>,
    token: Seq<char>,
    oauth_method: Seq<char>,
    login: Option<Seq<char>>,
) -> (Map<Seq<char>, Seq<char>>, ResponseView<Option<Seq<char>>>) {
    match login {
        Some(user_token) => (s, ok_view(Some(user_token))),
        None => (
            s.insert(OAUTH_TOKEN_KEY@, token).insert(OAUTH_METHOD_KEY@, oauth_method),
            ok_view(None),
        ),
    }
}

/// `GET /oauth/:oauth_method/callback`, last part: answers after the login
/// attempt with the provider token `token`.
pub fn callback_outcome(
    session: &mut SessionData,
    token: String,
    oauth_method: String,
    login: AuthReply,
) -> (r: CollariResponse<TokenResponse>)
    ensures
        (final(session)@, r@) == callback_finish(old(session)@, token@, oauth_method@, login@),
{
    match login {
        AuthReply::Token(user_token) => ok(TokenResponse { token: Some(user_token) }),
        AuthReply::Refused => {
            session.insert(OAUTH_TOKEN_KEY, token);
            session.insert(OAUTH_METHOD_KEY, oauth_method);
            ok(TokenResponse { token: None })
        },
    }
}

/// A callback that echoes back the CSRF state of the authorization the
/// session started is accepted, and releases that authorization's PKCE
/// verifier; both secrets leave the session.
pub proof fn lemma_oauth_then_callback(
    s: Map<Seq<char>, Seq<char>>,
    csrf_state: Seq<char>,
    pkce_verifier: Seq<char>,
)
    ensures
        callback_check(oauth_session(s, csrf_state, pkce_verifier), csrf_state) == (
            s.remove(CSRF_STATE_KEY@).remove(PKCE_VERIFIER_KEY@),
            Ok::<Seq<char>, Seq<char>>(pkce_verifier),
        ),
{
    lemma_session_keys_distinct();
    let s1 = oauth_session(s, csrf_state, pkce_verifier);
    assert(s1.remove(CSRF_STATE_KEY@).remove(PKCE_VERIFIER_KEY@) =~= s.remove(
        CSRF_STATE_KEY@,
    ).remove(PKCE_VERIFIER_KEY@));
}

/// A callback is accepted only when the session holds a CSRF state equal to
/// the one echoed back and a PKCE verifier; the verifier released is the one
/// the session held.
pub proof fn lemma_callback_requires_matching_state(s: Map<Seq<char>, Seq<char>>, state: Seq<char>)
    ensures
        callback_check(s, state).1 is Ok ==> {
            &&& s.contains_key(CSRF_STATE_KEY@)
            &&& s[CSRF_STATE_KEY@] == state
            &&& s.contains_key(PKCE_VERIFIER_KEY@)
            &&& callback_check(s, state).1 == Ok::<Seq<char>, Seq<char>>(s[PKCE_VERIFIER_KEY@])
        },
{
    lemma_session_keys_distinct();
}

/// A forged callback (its state differs from the one the session holds) is
/// refused and leaves the PKCE verifier where it was.
pub proof fn lemma_forged_state_refused(s: Map<Seq<char>, Seq<char>>, state: Seq<char>)
    requires
        s.contains_key(CSRF_STATE_KEY@),
        s[CSRF_STATE_KEY@] != state,
    ensures
        callback_check(s, state) == (
            s.remove(CSRF_STATE_KEY@),
            Err::<Seq<char>, Seq<char>>("state don't match"@),
        ),
        callback_check(s, state).0.contains_key(PKCE_VERIFIER_KEY@) == s.contains_key(
            PKCE_VERIFIER_KEY@,
        ),
{
    lemma_session_keys_distinct();
}

/// The CSRF state is used once: after any callback the session holds none,
/// so a replayed callback is refused with "state not found".
pub proof fn lemma_callback_single_use(
    s: Map<Seq<char>, Seq<char>>,
    state: Seq<char>,
    replayed_state: Seq<char>,
)
    ensures
        !callback_check(s, state).0.contains_key(CSRF_STATE_KEY@),
        callback_check(callback_check(s, state).0, replayed_state) == (
            callback_check(s, state).0,
            Err::<Seq<char>, Seq<char>>("state not found"@),
        ),
{
    lemma_session_keys_distinct();
}

/// The end of a callback touches only the keys of a pending sign-up: a
/// known user leaves the session unchanged, an unknown one leaves the
/// provider token and method in it.
pub proof fn lemma_callback_finish_pending(
    s: Map<Seq<char>, Seq<char>>,
    token: Seq<char>,
    oauth_method: Seq<char>,
)
    ensures
        callback_finish(s, token, oauth_method, None).0[OAUTH_TOKEN_KEY@] == token,
        callback_finish(s, token, oauth_method, None).0[OAUTH_METHOD_KEY@] == oauth_method,
        callback_finish(s, token, oauth_method, None).1.body == crate::json::Either::<
            Option<Seq<char>>,
            crate::json::CollariErrorView,
        >::E1(None),
        forall|user_token: Seq<char>|
            #[trigger] callback_finish(s, token, oauth_method, Some(user_token)).0 == s,
{
    lemma_session_keys_distinct();
}

/// A user the service knows is logged in by the callback: whatever the
/// provider token, method and user token, the answer is 200 with exactly
/// the user token, and the session is left as it was.
pub proof fn lemma_callback_known_user(
    s: Map<Seq<char>, Seq<char>>,
    token: Seq<char>,
    oauth_method: Seq<char>,
    user_token: Seq<char>,
)
    ensures
        callback_finish(s, token, oauth_method, Some(user_token)).0 == s,
        callback_finish(s, token, oauth_method, Some(user_token)).1.status == 200,
        callback_finish(s, token, oauth_method, Some(user_token)).1.body == crate::json::Either::<
            Option<Seq<char>>,
            crate::json::CollariErrorView,
        >::E1(Some(user_token)),
{
}

} // verus!
