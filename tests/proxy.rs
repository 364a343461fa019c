use threescale_wasm_auth::decode::Decode;
use threescale_wasm_auth::proxy::{
    forbidden_body, is_authorized, ConfigureStep, FilterAction, HttpAuthThreescale, RequestState,
    RootAuthThreescale, FORBIDDEN_STATUS,
};

fn configured_root(config: &str) -> RootAuthThreescale<String> {
    let mut root = RootAuthThreescale::new();
    assert!(root.install_configuration(Ok(config.to_string())));
    root
}

fn request(id: u32) -> HttpAuthThreescale<String> {
    configured_root("cfg").on_create_child_context(id).unwrap()
}

fn status(value: &str) -> Vec<(String, String)> {
    vec![
        ("content-type".to_string(), "text/plain".to_string()),
        (":status".to_string(), value.to_string()),
    ]
}

#[test]
fn forbidden_response_is_fixed() {
    assert_eq!(FORBIDDEN_STATUS, 403);
    assert_eq!(forbidden_body(), "Access forbidden.\n");
}

#[test]
fn bad_params_are_forbidden_with_or_without_backend() {
    for backend in [true, false] {
        let mut ctx = request(1);
        assert_eq!(ctx.on_http_request_headers(false, backend), FilterAction::Forbid);
        assert_eq!(ctx.state, RequestState::Forbidden);
    }
}

#[test]
fn missing_backend_is_forbidden() {
    let mut ctx = request(2);
    assert_eq!(ctx.on_http_request_headers(true, false), FilterAction::Forbid);
    assert_eq!(ctx.state, RequestState::Forbidden);
}

#[test]
fn failed_dispatch_is_forbidden() {
    let mut ctx = request(3);
    assert_eq!(ctx.on_http_request_headers(true, true), FilterAction::Dispatch);
    assert_eq!(ctx.on_dispatch(None), FilterAction::Forbid);
    assert_eq!(ctx.state, RequestState::Forbidden);
}

#[test]
fn status_200_resumes_request() {
    let mut ctx = request(4);
    assert_eq!(ctx.on_http_request_headers(true, true), FilterAction::Dispatch);
    assert_eq!(ctx.on_dispatch(Some(7)), FilterAction::Pause);
    assert_eq!(ctx.state, RequestState::AwaitingBackendResponse(7));
    assert_eq!(ctx.on_http_call_response(7, &status("200")), FilterAction::Resume);
    assert_eq!(ctx.state, RequestState::Authorized);
}

#[test]
fn other_statuses_are_forbidden() {
    for headers in [status("403"), status("500"), vec![]] {
        let mut ctx = request(5);
        ctx.on_http_request_headers(true, true);
        ctx.on_dispatch(Some(9));
        assert_eq!(ctx.on_http_call_response(9, &headers), FilterAction::Forbid);
        assert_eq!(ctx.state, RequestState::Forbidden);
    }
}

#[test]
fn unmatched_token_is_ignored() {
    let mut ctx = request(6);
    ctx.on_http_request_headers(true, true);
    ctx.on_dispatch(Some(11));
    assert_eq!(ctx.on_http_call_response(12, &status("200")), FilterAction::Ignore);
    assert_eq!(ctx.state, RequestState::AwaitingBackendResponse(11));
    let mut fresh = request(7);
    assert_eq!(fresh.on_http_call_response(11, &status("200")), FilterAction::Ignore);
    assert_eq!(fresh.state, RequestState::Started);
}

#[test]
fn resolved_request_ignores_later_events() {
    let mut ctx = request(8);
    ctx.on_http_request_headers(true, true);
    ctx.on_dispatch(Some(1));
    assert_eq!(ctx.on_http_call_response(1, &status("500")), FilterAction::Forbid);
    assert_eq!(ctx.on_http_call_response(1, &status("200")), FilterAction::Ignore);
    assert_eq!(ctx.on_http_request_headers(true, true), FilterAction::Ignore);
    assert_eq!(ctx.on_dispatch(Some(2)), FilterAction::Ignore);
    assert_eq!(ctx.state, RequestState::Forbidden);
}

#[test]
fn first_status_header_decides() {
    let mut headers = status("200");
    assert!(is_authorized(&headers));
    headers.push((":status".to_string(), "500".to_string()));
    assert!(is_authorized(&headers));
    headers.insert(0, (":status".to_string(), "500".to_string()));
    assert!(!is_authorized(&headers));
    assert!(!is_authorized(&vec![(":Status".to_string(), "200".to_string())]));
}

#[test]
fn powered_by_header_is_added() {
    let ctx = request(9);
    let (name, value) = ctx.on_http_response_headers();
    assert_eq!(name, "Powered-By");
    assert_eq!(value, "3scale");
}

#[test]
fn invalid_reconfiguration_keeps_snapshot() {
    let mut root = configured_root("first");
    assert!(!root.install_configuration(Err(())));
    let ctx = root.on_create_child_context(10).unwrap();
    assert_eq!(ctx.configuration(), "first");
    assert!(root.install_configuration(Ok("second".to_string())));
    let later = root.on_create_child_context(11).unwrap();
    assert_eq!(later.configuration(), "second");
    assert_eq!(ctx.configuration(), "first");
}

#[test]
fn no_context_before_configuration() {
    let root: RootAuthThreescale<String> = RootAuthThreescale::new();
    assert!(root.on_create_child_context(1).is_none());
    let mut root: RootAuthThreescale<String> = RootAuthThreescale::new();
    assert!(!root.install_configuration(Err(())));
    assert!(root.on_create_child_context(1).is_none());
}

#[test]
fn new_context_starts_with_its_id() {
    let ctx = request(42);
    assert_eq!(ctx.context_id, 42);
    assert_eq!(ctx.state, RequestState::Started);
    assert_eq!(ctx.configuration(), "cfg");
}

#[test]
fn vm_start_needs_data() {
    let mut root: RootAuthThreescale<String> = RootAuthThreescale::new();
    assert!(!root.on_vm_start(Err(())));
    assert!(root.vm_configuration.is_none());
    assert!(!root.on_vm_start(Ok(None)));
    assert!(root.on_vm_start(Ok(Some(b"{}".to_vec()))));
    assert_eq!(root.vm_configuration, Some(b"{}".to_vec()));
}

#[test]
fn configure_buffer_outcomes() {
    let root: RootAuthThreescale<String> = RootAuthThreescale::new();
    assert!(matches!(root.on_configure(Err(())), ConfigureStep::Finished(false)));
    assert!(matches!(root.on_configure(Ok(None)), ConfigureStep::Finished(true)));
    match root.on_configure(Ok(Some(b"abc".to_vec()))) {
        ConfigureStep::Parse(b) => assert_eq!(b, b"abc".to_vec()),
        other => panic!("unexpected step {:?}", other),
    }
}

#[test]
fn basic_credential_scenario() {
    let root = configured_root("backend");
    let mut ctx = root.on_create_child_context(100).unwrap();
    let params = Decode::Base64UrlSafe.decode("dXNlcjpwYXNz".to_string());
    assert_eq!(params.as_deref().unwrap(), "user:pass");
    assert_eq!(ctx.on_http_request_headers(params.is_ok(), true), FilterAction::Dispatch);
    assert_eq!(ctx.on_dispatch(Some(3)), FilterAction::Pause);
    assert_eq!(ctx.on_http_call_response(3, &status("200")), FilterAction::Resume);
    let (name, value) = ctx.on_http_response_headers();
    assert_eq!((name.as_str(), value.as_str()), ("Powered-By", "3scale"));
}
