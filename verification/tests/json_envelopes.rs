use rest_server::json::{error, no_content, ok, CollariResponse, Either, STATUS_BAD_REQUEST, STATUS_NO_CONTENT, STATUS_OK, STATUS_UNAUTHORIZED};
use rest_server::json::auth::TokenResponse;

#[test]
fn ok_carries_data_with_200() {
    let r: CollariResponse<u32> = ok(7);
    assert_eq!(r.status, STATUS_OK);
    assert_eq!(r.status, 200);
    match r.body {
        Either::E1(v) => assert_eq!(v, 7),
        Either::E2(_) => panic!("ok produced an error body"),
    }
}

#[test]
fn no_content_is_204_with_unit_body() {
    let r = no_content();
    assert_eq!(r.status, STATUS_NO_CONTENT);
    assert_eq!(r.status, 204);
    assert!(matches!(r.body, Either::E1(())));
}

#[test]
fn error_repeats_status_in_document() {
    let r: CollariResponse<TokenResponse> = error(STATUS_BAD_REQUEST, "state not found");
    assert_eq!(r.status, 400);
    match r.body {
        Either::E2(e) => {
            assert_eq!(e.status, 400);
            assert_eq!(e.message, "state not found");
        }
        Either::E1(_) => panic!("error produced a data body"),
    }
}

#[test]
fn error_with_unauthorized_status() {
    let r: CollariResponse<()> = error(STATUS_UNAUTHORIZED, "invalid credentials");
    assert_eq!(r.status, 401);
    match r.body {
        Either::E2(e) => {
            assert_eq!(e.status, r.status);
            assert_eq!(e.message, "invalid credentials");
        }
        Either::E1(_) => panic!("error produced a data body"),
    }
}

#[test]
fn error_with_empty_message() {
    let r: CollariResponse<()> = error(999, "");
    assert_eq!(r.status, 999);
    match r.body {
        Either::E2(e) => {
            assert_eq!(e.status, 999);
            assert_eq!(e.message, "");
        }
        Either::E1(_) => panic!("error produced a data body"),
    }
}
