use warp_dre::errors::WarpDREError;
use warp_dre::gateway::{
    check_response, decimal_string, format_status, join_path, set_param, status_text,
    STATUS_OK,
};

fn pair(a: &str, b: &str) -> (String, String) {
    (a.to_string(), b.to_string())
}

#[test]
fn decimal_of_zero_and_others() {
    assert_eq!(decimal_string(0), "0");
    assert_eq!(decimal_string(7), "7");
    assert_eq!(decimal_string(404), "404");
    assert_eq!(decimal_string(1000), "1000");
    assert_eq!(decimal_string(u64::MAX), "18446744073709551615");
}

#[test]
fn status_text_known_codes() {
    assert_eq!(status_text(200), "200 OK");
    assert_eq!(status_text(404), "404 Not Found");
    assert_eq!(status_text(500), "500 Internal Server Error");
}

#[test]
fn status_text_unknown_codes() {
    assert_eq!(status_text(299), "299 <unknown status code>");
    assert_eq!(status_text(42), "42 <unknown status code>");
    assert_eq!(status_text(1000), "1000 <unknown status code>");
}

#[test]
fn check_response_ok_passes_body() {
    assert_eq!(STATUS_OK, 200);
    let r = check_response(200, "{\"ids\":[]}".to_string());
    assert_eq!(r, Ok("{\"ids\":[]}".to_string()));
}

#[test]
fn check_response_error_names_status_and_body() {
    let r = check_response(502, "bad gateway".to_string());
    assert_eq!(
        r,
        Err(WarpDREError::WarpGatewayError(
            "Status:502 Bad Gateway, error: bad gateway".to_string()
        ))
    );
    let r = check_response(201, "created".to_string());
    assert_eq!(
        r,
        Err(WarpDREError::WarpGatewayError("Status:201 Created, error: created".to_string()))
    );
    let r = check_response(404, "no such route".to_string());
    assert_eq!(
        r,
        Err(WarpDREError::WarpGatewayError(
            "Status:404 Not Found, error: no such route".to_string()
        ))
    );
}

#[test]
fn error_messages() {
    let e = WarpDREError::ArgumentError("contract address must be set".to_string());
    assert_eq!(e.message(), "warp_dre: argument not valid contract address must be set");
    let e = WarpDREError::WarpGatewayError("down".to_string());
    assert_eq!(e.message(), "warp_dre::warp_gateway down");
}

#[test]
fn set_param_appends_new_name() {
    let mut q = vec![pair("query", "$.name")];
    set_param(&mut q, "id".to_string(), "abc".to_string());
    assert_eq!(q, vec![pair("query", "$.name"), pair("id", "abc")]);
}

#[test]
fn set_param_replaces_existing_name() {
    let mut q = vec![pair("id", "old"), pair("query", "$.name")];
    set_param(&mut q, "id".to_string(), "new".to_string());
    assert_eq!(q, vec![pair("id", "new"), pair("query", "$.name")]);
}

#[test]
fn set_param_on_empty_query() {
    let mut q: Vec<(String, String)> = Vec::new();
    set_param(&mut q, "id".to_string(), "x".to_string());
    assert_eq!(q, vec![pair("id", "x")]);
}

#[test]
fn join_path_puts_one_slash() {
    assert_eq!(join_path("https://host/gateway", "sequencer/register"), "https://host/gateway/sequencer/register");
    assert_eq!(join_path("", ""), "/");
}

#[test]
fn format_status_with_and_without_reason() {
    assert_eq!(format_status(404, Some("Not Found")), "404 Not Found");
    assert_eq!(format_status(7, None), "7 <unknown status code>");
    assert_eq!(format_status(0, Some("")), "0 ");
}
