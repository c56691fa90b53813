//! Request and reply documents of the authentication endpoints, and the
//! validation rules their bodies must meet (garde's `email` and `length`).

use vstd::prelude::*;
use vstd::utf8::*;

verus! {

/// The query string the OAuth provider redirects back with.
pub struct AuthzResp {
    pub code: String,
    /// The CSRF state echoed back by the provider.
    pub state: String,
}

/// What a provider's user-info endpoint tells about the user.
pub struct UserInfo {
    pub email: String,
    pub name: String,
}

/// Body of a signup request.
pub struct SignUpCreds {
    pub name: String,
    pub email: String,
    pub password: Option<String>,
}

/// Body of a login request.
pub struct LoginCreds {
    pub email: String,
    pub password: String,
}

/// Reply of login, signup and the OAuth callback: the user's token, or none
/// when an OAuth user still has to sign up.
pub struct TokenResponse {
    pub token: Option<String>,
}

impl View for TokenResponse {
    type V = Option<Seq<char>>;

    open spec fn view(&self) -> Option<Seq<char>> {
        self.token.deep_view()
    }
}

/// What garde's `email` rule (`garde::rules::email::apply`) answers for a
/// value: `Ok`, or the error message.
pub uninterp spec fn garde_email_rule(value: Seq<char>) -> Result<(), Seq<char>>;

/// A rule's outcome with its message as characters.
pub open spec fn outcome_view(r: Result<(), String>) -> Result<(), Seq<char>> {
    match r {
        Ok(()) => Ok(()),
        Err(m) => Err(m@),
    }
}

/// An optional string slice as characters.
pub open spec fn opt_str_view(o: Option<&str>) -> Option<Seq<char>> {
    match o {
        Some(v) => Some(v@),
        None => None,
    }
}

/// The length garde's simple `length` rule measures for a string: its
/// number of UTF-8 bytes.
pub open spec fn byte_len(s: Seq<char>) -> nat {
    encode_utf8(s).len()
}

/// The character of a decimal digit.
pub open spec fn digit_char(d: nat) -> char {
    (48 + d % 10) as char
}

/// The decimal numeral of a number, as `format!("{}")` writes it.
pub open spec fn decimal(n: nat) -> Seq<char>
    decreases n,
{
    if n < 10 {
        seq![digit_char(n)]
    } else {
        decimal(n / 10).push(digit_char(n % 10))
    }
}

/// What garde's simple `length` rule answers for an optional value and
/// bounds: an absent value passes; a present one fails below `min` with
/// "length is lower than {min}" and above `max` with
/// "length is greater than {max}", measured in UTF-8 bytes.
pub open spec fn garde_length_outcome(value: Option<Seq<char>>, min: usize, max: usize) -> Result<
    (),
    Seq<char>,
> {
    match value {
        None => Ok(()),
        Some(v) => if byte_len(v) < min {
            Err("length is lower than "@ + decimal(min as nat))
        } else if byte_len(v) > max {
            Err("length is greater than "@ + decimal(max as nat))
        } else {
            Ok(())
        },
    }
}

/// Runs garde's `email` rule on a value. The contract claims that the outcome
/// is the named [`garde_email_rule`] of the value; which addresses garde
/// accepts is not stated here.
#[verifier::external_body]
fn email_rule(value: &str) -> (r: Result<(), String>)
    ensures
        outcome_view(r) == garde_email_rule(value@),
{
    match garde::rules::email::apply(&value, ()) {
        Ok(()) => Ok(()),
        Err(e) => Err(e.message().to_string()),
    }
}

/// Runs garde's simple `length` rule on an optional value
/// (`garde::rules::length::simple::apply`, whose `check_len` compares the
/// byte length with the bounds and formats the bound into its message). The
/// contract claims the outcome [`garde_length_outcome`].
#[verifier::external_body]
fn length_rule(value: Option<&str>, min: usize, max: usize) -> (r: Result<(), String>)
    ensures
        outcome_view(r) == garde_length_outcome(opt_str_view(value), min, max),
{
    match garde::rules::length::simple::apply(&value, (min, max)) {
        Ok(()) => Ok(()),
        Err(e) => Err(e.message().to_string()),
    }
}

#[verifier::external_type_specification]
#[verifier::external_body]
pub struct ExReport(garde::Report);

/// What a garde `Report` holds, in order: for each failed rule its path (as
/// displayed; `None` for an empty path) and its error message.
pub uninterp spec fn report_entries(report: garde::Report) -> Seq<(Option<Seq<char>>, Seq<char>)>;

/// An empty report (`garde::Report::new`).
#[verifier::external_body]
fn report_new() -> (r: garde::Report)
    ensures
        report_entries(r) == Seq::<(Option<Seq<char>>, Seq<char>)>::empty(),
{
    garde::Report::new()
}

/// Appends a failure under a one-key path (`garde::Report::append` with
/// `garde::Path::new(path)` and `garde::Error::new(message)`): the entry is
/// added at the end, with the key as its displayed path.
#[verifier::external_body]
fn report_append(report: &mut garde::Report, path: &str, message: &str)
    ensures
        report_entries(*final(report)) == report_entries(*old(report)).push((Some(path@), message@)),
{
    report.append(garde::Path::new(path), garde::Error::new(message));
}

/// The failed checks among `checks`, in order, each as (field, message).
pub open spec fn failures(checks: Seq<(Seq<char>, Result<(), Seq<char>>)>) -> Seq<(Option<Seq<char>>, Seq<char>)>
    decreases checks.len(),
{
    if checks.len() == 0 {
        Seq::empty()
    } else {
        let rest = failures(checks.drop_last());
        match checks.last().1 {
            Ok(()) => rest,
            Err(m) => rest.push((Some(checks.last().0), m)),
        }
    }
}

/// The outcome of a validation whose rule outcomes are `checks`: `Ok` when
/// none failed, otherwise the report of the failures.
pub open spec fn validation_outcome(checks: Seq<(Seq<char>, Result<(), Seq<char>>)>) -> Result<
    (),
    Seq<(Option<Seq<char>>, Seq<char>)>,
> {
    if failures(checks).len() == 0 {
        Ok(())
    } else {
        Err(failures(checks))
    }
}

/// A validation outcome as characters.
pub open spec fn report_outcome_view(r: Result<(), garde::Report>) -> Result<(), Seq<(Option<Seq<char>>, Seq<char>)>> {
    match r {
        Ok(()) => Ok(()),
        Err(rep) => Err(report_entries(rep)),
    }
}

/// A rule check as characters.
pub open spec fn check_view(c: (&str, Result<(), String>)) -> (Seq<char>, Result<(), Seq<char>>) {
    (c.0@, outcome_view(c.1))
}

/// Gathers the outcomes of the rules checked on a value, in field order, into
/// its validation outcome.
pub fn collect_report(checks: Vec<(&str, Result<(), String>)>) -> (r: Result<(), garde::Report>)
    ensures
        report_outcome_view(r) == validation_outcome(checks@.map_values(|c: (&str, Result<(), String>)| check_view(c))),
{
    let ghost cv = checks@.map_values(|c: (&str, Result<(), String>)| check_view(c));
    let mut report = report_new();
    let mut failed: bool = false;
    let n: usize = checks.len();
    let mut i: usize = 0;
    while i < n
        invariant
            n == checks@.len(),
            cv == checks@.map_values(|c: (&str, Result<(), String>)| check_view(c)),
            i <= n,
            report_entries(report) == failures(cv.take(i as int)),
            failed == (failures(cv.take(i as int)).len() > 0),
        decreases n - i,
    {
        assert(cv.take(i as int + 1).drop_last() =~= cv.take(i as int));
        let (path, outcome) = &checks[i];
        match outcome {
            Ok(()) => {},
            Err(m) => {
                report_append(&mut report, path, m.as_str());
                failed = true;
            },
        }
        i = i + 1;
    }
    assert(cv.take(n as int) =~= cv);
    if failed {
        Err(report)
    } else {
        Ok(())
    }
}

/// The abstract value of a login body.
pub struct LoginCredsView {
    pub email: Seq<char>,
    pub password: Seq<char>,
}

impl View for LoginCreds {
    type V = LoginCredsView;

    open spec fn view(&self) -> LoginCredsView {
        LoginCredsView { email: self.email@, password: self.password@ }
    }
}

/// The rules of a login body, in field order: `email` must be an email
/// address, `password` 8 to 64 bytes long.
pub open spec fn login_checks(c: LoginCredsView) -> Seq<(Seq<char>, Result<(), Seq<char>>)> {
    seq![
        ("email"@, garde_email_rule(c.email)),
        ("password"@, garde_length_outcome(Some(c.password), 8, 64)),
    ]
}

impl LoginCreds {
    /// Validates the body as garde does for its derived rules.
    pub fn validate(&self) -> (r: Result<(), garde::Report>)
        ensures
            report_outcome_view(r) == validation_outcome(login_checks(self@)),
            r is Ok <==> garde_email_rule(self.email@) is Ok && 8 <= byte_len(self.password@) <= 64,
    {
        let email = email_rule(self.email.as_str());
        let password = length_rule(Some(self.password.as_str()), 8, 64);
        let ghost checks = login_checks(self@);
        let r = collect_report(vec![("email", email), ("password", password)]);
        proof {
            let cs = seq![("email", email), ("password", password)];
            assert(cs.map_values(|c: (&str, Result<(), String>)| check_view(c)) =~= checks);
            lemma_failures_empty(checks);
        }
        r
    }
}

/// No rule failed exactly when every outcome is `Ok`.
proof fn lemma_failures_empty(checks: Seq<(Seq<char>, Result<(), Seq<char>>)>)
    ensures
        failures(checks).len() == 0 <==> forall|i: int| 0 <= i < checks.len() ==> (#[trigger] checks[i]).1 is Ok,
    decreases checks.len(),
{
    if checks.len() > 0 {
        let t = checks.drop_last();
        lemma_failures_empty(t);
        if failures(checks).len() == 0 {
            assert forall|i: int| 0 <= i < checks.len() implies (#[trigger] checks[i]).1 is Ok by {
                if i < t.len() {
                    assert(t[i] == checks[i]);
                }
            }
        }
        if forall|i: int| 0 <= i < checks.len() ==> (#[trigger] checks[i]).1 is Ok {
            assert forall|i: int| 0 <= i < t.len() implies (#[trigger] t[i]).1 is Ok by {
                assert(t[i] == checks[i]);
            }
            assert(checks[checks.len() - 1].1 is Ok);
        }
    }
}

/// The abstract value of a signup body.
pub struct SignUpCredsView {
    pub name: Seq<char>,
    pub email: Seq<char>,
    pub password: Option<Seq<char>>,
}

impl View for SignUpCreds {
    type V = SignUpCredsView;

    open spec fn view(&self) -> SignUpCredsView {
        SignUpCredsView { name: self.name@, email: self.email@, password: self.password.deep_view() }
    }
}

/// The rules of a signup body, in field order: `name` is not checked, `email`
/// must be an email address, `password`, when given, 8 to 64 bytes long.
pub open spec fn signup_checks(c: SignUpCredsView) -> Seq<(Seq<char>, Result<(), Seq<char>>)> {
    seq![
        ("email"@, garde_email_rule(c.email)),
        ("password"@, garde_length_outcome(c.password, 8, 64)),
    ]
}

impl SignUpCreds {
    /// Validates the body as garde does for its derived rules.
    pub fn validate(&self) -> (r: Result<(), garde::Report>)
        ensures
            report_outcome_view(r) == validation_outcome(signup_checks(self@)),
            r is Ok <==> garde_email_rule(self.email@) is Ok && (self@.password matches Some(p)
                ==> 8 <= byte_len(p) <= 64),
    {
        let email = email_rule(self.email.as_str());
        let pw: Option<&str> = match &self.password {
            Some(p) => Some(p.as_str()),
            None => None,
        };
        let password = length_rule(pw, 8, 64);
        let ghost checks = signup_checks(self@);
        assert(opt_str_view(pw) == self@.password);
        let r = collect_report(vec![("email", email), ("password", password)]);
        proof {
            let cs = seq![("email", email), ("password", password)];
            assert(cs.map_values(|c: (&str, Result<(), String>)| check_view(c)) =~= checks);
            lemma_failures_empty(checks);
        }
        r
    }
}

} // verus!
