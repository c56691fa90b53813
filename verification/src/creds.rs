//! Credentials sent to the authentication service, and its answers.

use vstd::prelude::*;

verus! {

/// Email and password credentials; signup also gives the user's name.
pub struct PasswordCreds {
    pub email: String,
    pub name: Option<String>,
    pub password: String,
}

/// Credentials of a user who signed in with an OAuth provider.
pub struct OauthCreds {
    pub token: String,
    pub method: String,
    pub email: String,
    pub name: String,
}

/// The credentials of a login or signup request.
pub enum Creds {
    Password(PasswordCreds),
    Oauth(OauthCreds),
}

/// The abstract value of [`Creds`].
pub enum CredsView {
    Password { email: Seq<char>, name: Option<Seq<char>>, password: Seq<char> },
    Oauth { token: Seq<char>, method: Seq<char>, email: Seq<char>, name: Seq<char> },
}

impl View for Creds {
    type V = CredsView;

    open spec fn view(&self) -> CredsView {
        match self {
            Creds::Password(c) => CredsView::Password {
                email: c.email@,
                name: c.name.deep_view(),
                password: c.password@,
            },
            Creds::Oauth(c) => CredsView::Oauth {
                token: c.token@,
                method: c.method@,
                email: c.email@,
                name: c.name@,
            },
        }
    }
}

/// The authentication service's answer to a login or signup: the user's
/// token, or a refusal.
pub enum AuthReply {
    Token(String),
    Refused,
}

impl View for AuthReply {
    type V = Option<Seq<char>>;

    open spec fn view(&self) -> Option<Seq<char>> {
        match self {
            AuthReply::Token(t) => Some(t@),
            AuthReply::Refused => None,
        }
    }
}

} // verus!
