//! Response envelopes shared by every handler: a status code and either the
//! handler's data or an error document that repeats the status.

pub mod auth;

use vstd::prelude::*;

verus! {

/// 200 OK.
pub const STATUS_OK: u16 = 200;

/// 204 No Content.
pub const STATUS_NO_CONTENT: u16 = 204;

/// 400 Bad Request.
pub const STATUS_BAD_REQUEST: u16 = 400;

/// 401 Unauthorized.
pub const STATUS_UNAUTHORIZED: u16 = 401;

/// 422 Unprocessable Entity (a request body that failed validation).
pub const STATUS_UNPROCESSABLE_ENTITY: u16 = 422;

/// The range an HTTP status code lives in (three decimal digits, 100 to 999).
pub open spec fn is_status_code(status: u16) -> bool {
    100 <= status <= 999
}

/// One of two bodies: the handler's data (`E1`) or an error (`E2`).
pub enum Either<L, R> {
    E1(L),
    E2(R),
}

/// The error document sent back to the client.
pub struct CollariError {
    pub status: u16,
    pub message: String,
}

/// The abstract value of a [`CollariError`].
pub struct CollariErrorView {
    pub status: u16,
    pub message: Seq<char>,
}

impl View for CollariError {
    type V = CollariErrorView;

    open spec fn view(&self) -> CollariErrorView {
        CollariErrorView { status: self.status, message: self.message@ }
    }
}

/// What every handler answers: a status code and a body.
pub struct CollariResponse<T> {
    pub status: u16,
    pub body: Either<T, CollariError>,
}

/// The abstract value of a [`CollariResponse`].
pub struct ResponseView<V> {
    pub status: u16,
    pub body: Either<V, CollariErrorView>,
}

impl<T: View> View for CollariResponse<T> {
    type V = ResponseView<T::V>;

    open spec fn view(&self) -> ResponseView<T::V> {
        ResponseView {
            status: self.status,
            body: match &self.body {
                Either::E1(data) => Either::E1(data@),
                Either::E2(err) => Either::E2(err@),
            },
        }
    }
}

/// The response that carries `data` with status 200.
pub open spec fn ok_view<V>(data: V) -> ResponseView<V> {
    ResponseView { status: STATUS_OK, body: Either::E1(data) }
}

/// The error response with the given status and message.
pub open spec fn error_view<V>(status: u16, message: Seq<char>) -> ResponseView<V> {
    ResponseView {
        status,
        body: Either::E2(CollariErrorView { status, message }),
    }
}

/// A 200 response carrying `data`.
pub fn ok<T>(data: T) -> (r: CollariResponse<T>)
    ensures
        r.status == STATUS_OK,
        r.body == Either::<T, CollariError>::E1(data),
{
    CollariResponse { status: STATUS_OK, body: Either::E1(data) }
}

/// A 204 response with an empty body.
pub fn no_content() -> (r: CollariResponse<()>)
    ensures
        r.status == STATUS_NO_CONTENT,
        r.body == Either::<(), CollariError>::E1(()),
{
    CollariResponse { status: STATUS_NO_CONTENT, body: Either::E1(()) }
}

/// An error response: the status is repeated inside the error document.
pub fn error<T>(status: u16, message: &str) -> (r: CollariResponse<T>)
    requires
        is_status_code(status),
    ensures
        r.status == status,
        r.body matches Either::E2(e) && e.status == status && e.message@ == message@,
{
    CollariResponse {
        status,
        body: Either::E2(CollariError { status, message: message.to_owned() }),
    }
}

/// An error response produced by [`error`] is consistent: the status of the
/// response and the status written in its error document are the same, and
/// it never carries data.
pub proof fn lemma_error_status_consistent<V>(status: u16, message: Seq<char>)
    ensures
        error_view::<V>(status, message).body matches Either::E2(e) && e.status
            == error_view::<V>(status, message).status,
{
}

} // verus!
