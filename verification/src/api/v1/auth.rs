//! Password login and signup, and logout.

use vstd::prelude::*;
use crate::api::v1::oauth::{OAUTH_METHOD_KEY, OAUTH_TOKEN_KEY};
use crate::creds::{AuthReply, Creds, CredsView, OauthCreds, PasswordCreds};
use crate::json::auth::{LoginCreds, SignUpCreds, SignUpCredsView, TokenResponse};
use crate::json::{
    error, error_view, no_content, ok, ok_view, CollariResponse, ResponseView, STATUS_BAD_REQUEST,
    STATUS_NO_CONTENT, STATUS_UNAUTHORIZED,
};
use crate::session::SessionData;

verus! {

/// `GET /auth/logout`: answers 204 with no body.
pub fn logout() -> (r: CollariResponse<()>)
    ensures
        r@.status == STATUS_NO_CONTENT,
        r@.body == crate::json::Either::<(), crate::json::CollariErrorView>::E1(()),
{
    no_content()
}

/// `POST /auth/login`, first part: the password credentials to log in with.
pub fn login(payload: LoginCreds) -> (c: Creds)
    ensures
        c@ == (CredsView::Password {
            email: payload.email@,
            name: None,
            password: payload.password@,
        }),
{
    Creds::Password(PasswordCreds { email: payload.email, name: None, password: payload.password })
}

/// The answer to a login: the user's token, or 401 when the service refused
/// the credentials.
pub open spec fn login_reply(reply: Option<Seq<char>>) -> ResponseView<Option<Seq<char>>> {
    match reply {
        Some(token) => ok_view(Some(token)),
        None => error_view(STATUS_UNAUTHORIZED, "invalid credentials"@),
    }
}

/// `POST /auth/login`, last part: answers after the service's reply.
pub fn login_outcome(reply: AuthReply) -> (r: CollariResponse<TokenResponse>)
    ensures
        r@ == login_reply(reply@),
{
    match reply {
        AuthReply::Token(token) => ok(TokenResponse { token: Some(token) }),
        AuthReply::Refused => error(STATUS_UNAUTHORIZED, "invalid credentials"),
    }
}

/// What signup decides: the session afterwards (the pending OAuth token and
/// method are taken out of it in every case) and either the credentials to
/// sign up with or the message to refuse with. A pending OAuth sign-in
/// (both token and method present) makes OAuth credentials; otherwise a
/// password is required.
pub open spec fn signup_decision(s: Map<Seq<char>, Seq<char>>, payload: SignUpCredsView) -> (
    Map<Seq<char>, Seq<char>>,
    Result<CredsView, Seq<char>>,
) {
    let after = s.remove(OAUTH_TOKEN_KEY@).remove(OAUTH_METHOD_KEY@);
    if s.contains_key(OAUTH_TOKEN_KEY@) && s.remove(OAUTH_TOKEN_KEY@).contains_key(
        OAUTH_METHOD_KEY@,
    ) {
        (
            after,
            Ok(
                CredsView::Oauth {
                    token: s[OAUTH_TOKEN_KEY@],
                    method: s.remove(OAUTH_TOKEN_KEY@)[OAUTH_METHOD_KEY@],
                    email: payload.email,
                    name: payload.name,
                },
            ),
        )
    } else {
        match payload.password {
            Some(password) => (
                after,
                Ok(
                    CredsView::Password {
                        email: payload.email,
                        name: Some(payload.name),
                        password,
                    },
                ),
            ),
            None => (after, Err("password required"@)),
        }
    }
}

/// `POST /auth/signup`, first part: the credentials to sign up with, or the
/// 400 response when there is neither a pending OAuth sign-in nor a password.
pub fn signup(session: &mut SessionData, payload: SignUpCreds) -> (r: Result<
    Creds,
    CollariResponse<TokenResponse>,
>)
    ensures
        final(session)@ == signup_decision(old(session)@, payload@).0,
        match signup_decision(old(session)@, payload@).1 {
            Ok(c) => r matches Ok(creds) && creds@ == c,
            Err(message) => r matches Err(resp) && resp@ == error_view::<Option<Seq<char>>>(
                STATUS_BAD_REQUEST,
                message,
            ),
        },
{
    let oauth_token = session.remove(OAUTH_TOKEN_KEY);
    let oauth_method = session.remove(OAUTH_METHOD_KEY);
    match (oauth_token, oauth_method) {
        (Some(token), Some(method)) => Ok(
            Creds::Oauth(
                OauthCreds { token, method, email: payload.email, name: payload.name },
            ),
        ),
        _ => match payload.password {
            Some(password) => Ok(
                Creds::Password(
                    PasswordCreds { email: payload.email, name: Some(payload.name), password },
                ),
            ),
            None => Err(error(STATUS_BAD_REQUEST, "password required")),
        },
    }
}

/// The answer to a signup: the new user's token, or 400 when the service
/// refused (the user exists already).
pub open spec fn signup_reply(reply: Option<Seq<char>>) -> ResponseView<Option<Seq<char>>> {
    match reply {
        Some(token) => ok_view(Some(token)),
        None => error_view(STATUS_BAD_REQUEST, "user already exists"@),
    }
}

/// `POST /auth/signup`, last part: answers after the service's reply.
pub fn signup_outcome(reply: AuthReply) -> (r: CollariResponse<TokenResponse>)
    ensures
        r@ == signup_reply(reply@),
{
    match reply {
        AuthReply::Token(token) => ok(TokenResponse { token: Some(token) }),
        AuthReply::Refused => error(STATUS_BAD_REQUEST, "user already exists"),
    }
}

/// Signup always consumes a pending OAuth sign-in: afterwards the session
/// holds neither the provider token nor the method.
pub proof fn lemma_signup_consumes_pending(s: Map<Seq<char>, Seq<char>>, payload: SignUpCredsView)
    ensures
        !signup_decision(s, payload).0.contains_key(OAUTH_TOKEN_KEY@),
        !signup_decision(s, payload).0.contains_key(OAUTH_METHOD_KEY@),
{
}

/// An OAuth user unknown to the service, who then signs up, signs up with
/// the provider token and method the callback kept, whatever the body holds.
pub proof fn lemma_callback_then_signup(
    s: Map<Seq<char>, Seq<char>>,
    token: Seq<char>,
    oauth_method: Seq<char>,
    payload: SignUpCredsView,
)
    ensures
        signup_decision(
            crate::api::v1::oauth::callback_finish(s, token, oauth_method, None).0,
            payload,
        ).1 == Ok::<CredsView, Seq<char>>(
            CredsView::Oauth { token, method: oauth_method, email: payload.email, name: payload.name },
        ),
{
    crate::api::v1::oauth::lemma_session_keys_distinct();
}

/// Without a pending OAuth sign-in, signup is refused exactly when the body
/// has no password.
pub proof fn lemma_signup_needs_password(s: Map<Seq<char>, Seq<char>>, payload: SignUpCredsView)
    requires
        !s.contains_key(OAUTH_TOKEN_KEY@),
    ensures
        signup_decision(s, payload).1 is Err <==> payload.password is None,
{
}

/// Refusals are answered with an error document that repeats the status:
/// 401 for a refused login, 400 for a refused signup.
pub proof fn lemma_refusals()
    ensures
        login_reply(None) == error_view::<Option<Seq<char>>>(STATUS_UNAUTHORIZED, "invalid credentials"@),
        signup_reply(None) == error_view::<Option<Seq<char>>>(STATUS_BAD_REQUEST, "user already exists"@),
        login_reply(None).body matches crate::json::Either::E2(e) && e.status == login_reply(None).status,
        signup_reply(None).body matches crate::json::Either::E2(e) && e.status == signup_reply(None).status,
{
}

/// A token the service issues for a login reaches the client unchanged:
/// whatever the token, the answer is 200 with exactly that token.
pub proof fn lemma_login_token_answered(token: Seq<char>)
    ensures
        login_reply(Some(token)).status == 200,
        login_reply(Some(token)).body == crate::json::Either::<
            Option<Seq<char>>,
            crate::json::CollariErrorView,
        >::E1(Some(token)),
{
}

/// A token the service issues for a signup reaches the client unchanged:
/// whatever the token, the answer is 200 with exactly that token.
pub proof fn lemma_signup_token_answered(token: Seq<char>)
    ensures
        signup_reply(Some(token)).status == 200,
        signup_reply(Some(token)).body == crate::json::Either::<
            Option<Seq<char>>,
            crate::json::CollariErrorView,
        >::E1(Some(token)),
{
}

/// Without a pending OAuth sign-in (no provider token, or no method), a
/// signup with a password signs up with exactly the body's email, its name
/// and that password, whatever they are.
pub proof fn lemma_signup_with_password(
    s: Map<Seq<char>, Seq<char>>,
    name: Seq<char>,
    email: Seq<char>,
    password: Seq<char>,
)
    requires
        !(s.contains_key(OAUTH_TOKEN_KEY@) && s.contains_key(OAUTH_METHOD_KEY@)),
    ensures
        signup_decision(s, SignUpCredsView { name, email, password: Some(password) }).1 == Ok::<
            CredsView,
            Seq<char>,
        >(CredsView::Password { email, name: Some(name), password }),
{
    crate::api::v1::oauth::lemma_session_keys_distinct();
}

/// With a pending OAuth sign-in (provider token and method both in the
/// session), signup uses exactly those and the body's email and name,
/// whether or not the body has a password.
pub proof fn lemma_signup_with_pending_oauth(s: Map<Seq<char>, Seq<char>>, payload: SignUpCredsView)
    requires
        s.contains_key(OAUTH_TOKEN_KEY@),
        s.contains_key(OAUTH_METHOD_KEY@),
    ensures
        signup_decision(s, payload).1 == Ok::<CredsView, Seq<char>>(
            CredsView::Oauth {
                token: s[OAUTH_TOKEN_KEY@],
                method: s[OAUTH_METHOD_KEY@],
                email: payload.email,
                name: payload.name,
            },
        ),
{
    crate::api::v1::oauth::lemma_session_keys_distinct();
}

} // verus!
