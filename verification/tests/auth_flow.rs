use rest_server::api::v1::auth::{login, login_outcome, logout, signup, signup_outcome};
use rest_server::api::v1::oauth::{
    callback, callback_creds, callback_outcome, oauth, oauth_redirect, CSRF_STATE_KEY,
    OAUTH_METHOD_KEY, OAUTH_TOKEN_KEY, PKCE_VERIFIER_KEY,
};
use rest_server::creds::{AuthReply, Creds};
use rest_server::json::auth::{AuthzResp, LoginCreds, SignUpCreds, TokenResponse, UserInfo};
use rest_server::json::{CollariResponse, Either};
use rest_server::oauth::{oauth_client, AuthRequest, OAuthProvider, Provider};
use rest_server::session::SessionData;

fn provider(id: &str, scopes: Vec<&str>) -> Provider {
    Provider::new(
        oauth_client(
            id.to_string(),
            "secret".to_string(),
            "https://auth.example.com/authorize",
            "https://auth.example.com/token",
            "http://localhost/callback",
        ),
        format!("https://{id}.example.com/me"),
        scopes,
    )
}

fn providers() -> OAuthProvider {
    OAuthProvider::new(provider("google", vec!["email", "profile"]), provider("facebook", vec!["email"]))
}

fn token_of(r: &CollariResponse<TokenResponse>) -> Option<String> {
    match &r.body {
        Either::E1(t) => t.token.clone(),
        Either::E2(e) => panic!("unexpected error {} {}", e.status, e.message),
    }
}

fn error_of<T>(r: &CollariResponse<T>) -> (u16, String) {
    match &r.body {
        Either::E1(_) => panic!("expected an error"),
        Either::E2(e) => {
            assert_eq!(e.status, r.status);
            (e.status, e.message.clone())
        }
    }
}

fn query(code: &str, state: &str) -> AuthzResp {
    AuthzResp { code: code.to_string(), state: state.to_string() }
}

#[test]
fn logout_is_no_content() {
    let r = logout();
    assert_eq!(r.status, 204);
    assert!(matches!(r.body, Either::E1(())));
}

#[test]
fn login_builds_password_creds() {
    match login(LoginCreds { email: "a@b.c".to_string(), password: "password1".to_string() }) {
        Creds::Password(c) => {
            assert_eq!(c.email, "a@b.c");
            assert_eq!(c.name, None);
            assert_eq!(c.password, "password1");
        }
        Creds::Oauth(_) => panic!("login made OAuth credentials"),
    }
}

#[test]
fn login_outcomes() {
    let r = login_outcome(AuthReply::Token("tok".to_string()));
    assert_eq!(r.status, 200);
    assert_eq!(token_of(&r), Some("tok".to_string()));
    let r = login_outcome(AuthReply::Refused);
    assert_eq!(r.status, 401);
    assert_eq!(error_of(&r), (401, "invalid credentials".to_string()));
}

#[test]
fn signup_outcomes() {
    let r = signup_outcome(AuthReply::Token("new".to_string()));
    assert_eq!(r.status, 200);
    assert_eq!(token_of(&r), Some("new".to_string()));
    let r = signup_outcome(AuthReply::Refused);
    assert_eq!(error_of(&r), (400, "user already exists".to_string()));
}

#[test]
fn signup_with_password() {
    let mut s = SessionData::new();
    let payload = SignUpCreds {
        name: "Ann".to_string(),
        email: "ann@example.com".to_string(),
        password: Some("password1".to_string()),
    };
    match signup(&mut s, payload) {
        Ok(Creds::Password(c)) => {
            assert_eq!(c.email, "ann@example.com");
            assert_eq!(c.name, Some("Ann".to_string()));
            assert_eq!(c.password, "password1");
        }
        _ => panic!("expected password credentials"),
    }
}

#[test]
fn signup_without_password_or_pending_oauth_is_refused() {
    let mut s = SessionData::new();
    let payload = SignUpCreds { name: "Ann".to_string(), email: "ann@example.com".to_string(), password: None };
    match signup(&mut s, payload) {
        Err(r) => assert_eq!(error_of(&r), (400, "password required".to_string())),
        Ok(_) => panic!("expected a refusal"),
    }
}

#[test]
fn signup_with_only_pending_token_needs_password() {
    let mut s = SessionData::new();
    s.insert(OAUTH_TOKEN_KEY, "tok".to_string());
    let payload = SignUpCreds { name: "Ann".to_string(), email: "ann@example.com".to_string(), password: None };
    assert!(signup(&mut s, payload).is_err());
    assert_eq!(s.get(OAUTH_TOKEN_KEY), None);
}

#[test]
fn callback_refused_then_signup_uses_oauth_creds() {
    let mut s = SessionData::new();
    let r = callback_outcome(&mut s, "provider-token".to_string(), "google".to_string(), AuthReply::Refused);
    assert_eq!(r.status, 200);
    assert_eq!(token_of(&r), None);
    assert_eq!(s.get(OAUTH_TOKEN_KEY), Some("provider-token".to_string()));
    assert_eq!(s.get(OAUTH_METHOD_KEY), Some("google".to_string()));
    let payload = SignUpCreds {
        name: "Ann".to_string(),
        email: "ann@example.com".to_string(),
        password: Some("ignored-password".to_string()),
    };
    match signup(&mut s, payload) {
        Ok(Creds::Oauth(c)) => {
            assert_eq!(c.token, "provider-token");
            assert_eq!(c.method, "google");
            assert_eq!(c.email, "ann@example.com");
            assert_eq!(c.name, "Ann");
        }
        _ => panic!("expected OAuth credentials"),
    }
    assert_eq!(s.get(OAUTH_TOKEN_KEY), None);
    assert_eq!(s.get(OAUTH_METHOD_KEY), None);
}

#[test]
fn callback_known_user_gets_token_and_session_unchanged() {
    let mut s = SessionData::new();
    let r = callback_outcome(&mut s, "pt".to_string(), "facebook".to_string(), AuthReply::Token("user".to_string()));
    assert_eq!(r.status, 200);
    assert_eq!(token_of(&r), Some("user".to_string()));
    assert_eq!(s.get(OAUTH_TOKEN_KEY), None);
    assert_eq!(s.get(OAUTH_METHOD_KEY), None);
}

#[test]
fn callback_creds_are_oauth() {
    let user = UserInfo { email: "u@x.y".to_string(), name: "U".to_string() };
    match callback_creds("pt", "facebook", user) {
        Creds::Oauth(c) => {
            assert_eq!(c.token, "pt");
            assert_eq!(c.method, "facebook");
            assert_eq!(c.email, "u@x.y");
            assert_eq!(c.name, "U");
        }
        Creds::Password(_) => panic!("expected OAuth credentials"),
    }
}

#[test]
fn oauth_redirect_remembers_secrets() {
    let mut s = SessionData::new();
    let req = AuthRequest {
        url: "https://auth.example.com/authorize?state=c".to_string(),
        csrf_state: "c".to_string(),
        pkce_verifier: "v".to_string(),
    };
    let r = oauth_redirect(&mut s, req);
    assert_eq!(r.status, 200);
    match r.body {
        Either::E1(redirect) => assert_eq!(redirect.location, "https://auth.example.com/authorize?state=c"),
        Either::E2(_) => panic!("unexpected error"),
    }
    assert_eq!(s.get(CSRF_STATE_KEY), Some("c".to_string()));
    assert_eq!(s.get(PKCE_VERIFIER_KEY), Some("v".to_string()));
}

#[test]
fn oauth_then_callback_round_trip() {
    let providers = providers();
    let mut s = SessionData::new();
    let r = oauth(&mut s, &providers, "facebook");
    let location = match r.body {
        Either::E1(redirect) => redirect.location,
        Either::E2(_) => panic!("unexpected error"),
    };
    let state = s.get(CSRF_STATE_KEY).unwrap();
    let verifier = s.get(PKCE_VERIFIER_KEY).unwrap();
    assert_eq!(location, providers.facebook.authorization_url(&state, &verifier));
    match callback(&mut s, &providers, "facebook", query("the-code", &state)) {
        Ok(ex) => {
            assert_eq!(ex.code, "the-code");
            assert_eq!(ex.pkce_verifier, verifier);
            assert_eq!(ex.provider.client.client_id(), "facebook");
        }
        Err(r) => panic!("callback refused: {:?}", error_of(&r)),
    }
    assert_eq!(s.get(CSRF_STATE_KEY), None);
    assert_eq!(s.get(PKCE_VERIFIER_KEY), None);
}

#[test]
fn callback_replay_is_refused() {
    let providers = providers();
    let mut s = SessionData::new();
    s.insert(CSRF_STATE_KEY, "st".to_string());
    s.insert(PKCE_VERIFIER_KEY, "pk".to_string());
    assert!(callback(&mut s, &providers, "google", query("c", "st")).is_ok());
    match callback(&mut s, &providers, "google", query("c", "st")) {
        Err(r) => assert_eq!(error_of(&r), (400, "state not found".to_string())),
        Ok(_) => panic!("replayed callback accepted"),
    }
}

#[test]
fn callback_with_forged_state_keeps_verifier() {
    let providers = providers();
    let mut s = SessionData::new();
    s.insert(CSRF_STATE_KEY, "st".to_string());
    s.insert(PKCE_VERIFIER_KEY, "pk".to_string());
    match callback(&mut s, &providers, "google", query("c", "forged")) {
        Err(r) => assert_eq!(error_of(&r), (400, "state don't match".to_string())),
        Ok(_) => panic!("forged callback accepted"),
    }
    assert_eq!(s.get(CSRF_STATE_KEY), None);
    assert_eq!(s.get(PKCE_VERIFIER_KEY), Some("pk".to_string()));
}

#[test]
fn callback_without_verifier_is_refused() {
    let providers = providers();
    let mut s = SessionData::new();
    s.insert(CSRF_STATE_KEY, "st".to_string());
    match callback(&mut s, &providers, "google", query("c", "st")) {
        Err(r) => assert_eq!(error_of(&r), (400, "pkce not found".to_string())),
        Ok(_) => panic!("callback without verifier accepted"),
    }
    assert_eq!(s.get(CSRF_STATE_KEY), None);
}

#[test]
fn callback_unknown_method_uses_google() {
    let providers = providers();
    let mut s = SessionData::new();
    s.insert(CSRF_STATE_KEY, "st".to_string());
    s.insert(PKCE_VERIFIER_KEY, "pk".to_string());
    match callback(&mut s, &providers, "myspace", query("c", "st")) {
        Ok(ex) => assert_eq!(ex.provider.client.client_id(), "google"),
        Err(_) => panic!("callback refused"),
    }
}
