use random_number_api::clients::random_number_service::RandomNumberServiceError;
use random_number_api::models::error::{AppError, ErrorResponse};
use random_number_api::models::state::CreateAppStateError;
use random_number_api::prelude::Wrapper;
use random_number_api::utils::axum::{Json, Path, Query};
use random_number_api::{listen_address, InitializeAppError};

#[test]
fn constructors_set_status_and_message() {
    let e = AppError::new(418, "teapot".to_string());
    assert_eq!(e.code(), 418);
    assert_eq!(e.message(), Some("teapot"));

    let e = AppError::bad_request("nope".to_string());
    assert_eq!(e.code(), 400);
    assert_eq!(e.message(), Some("nope"));

    let e = AppError::not_found();
    assert_eq!(e.code(), 404);
    assert_eq!(e.message(), None);

    let e = AppError::server_error();
    assert_eq!(e.code(), 500);
    assert_eq!(e.message(), None);
}

#[test]
fn response_has_json_body_only_with_message() {
    let (code, body) = AppError::bad_request("bad input".to_string()).into_response();
    assert_eq!(code, 400);
    assert_eq!(body, Some(ErrorResponse::new("bad input".to_string())));
    assert_eq!(body.unwrap().message(), "bad input");

    let (code, body) = AppError::not_found().into_response();
    assert_eq!(code, 404);
    assert_eq!(body, None);
}

#[test]
fn service_error_converts_to_server_error() {
    let err: AppError = RandomNumberServiceError.into();
    assert_eq!(err, AppError::server_error());
}

#[test]
fn errors_display_their_names() {
    assert_eq!(AppError::not_found().to_string(), "Application Error");
    assert_eq!(RandomNumberServiceError.to_string(), "RandomNumberServiceError");
    assert_eq!(CreateAppStateError.to_string(), "CreateAppStateError");
    assert_eq!(InitializeAppError.to_string(), "InitializeAppError");
}

#[test]
fn listen_address_joins_host_and_port() {
    assert_eq!(listen_address("127.0.0.1", 8000), "127.0.0.1:8000");
    assert_eq!(listen_address("0.0.0.0", 0), "0.0.0.0:0");
    assert_eq!(listen_address("localhost", 65535), "localhost:65535");
}

#[test]
fn wrapper_dereferences_to_its_value() {
    let w = Wrapper(String::from("inner"));
    assert_eq!(w.len(), 5);
    assert_eq!(*w, "inner");
}

#[test]
fn extractors_hold_their_values() {
    let Path(p) = Path(3u8);
    let Query(q) = Query("x");
    let Json(j) = Json(vec![1, 2]);
    assert_eq!((p, q, j), (3, "x", vec![1, 2]));
}
