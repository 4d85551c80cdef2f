use browsers::communicate::{
    action_request, activate_request, activation_calls, open_requests, ActivationCall,
    BackendRequest, DaemonRequest,
};

fn request(url: &str, reload: bool) -> DaemonRequest {
    DaemonRequest { url: url.to_string(), reload, activation_token: None }
}

#[test]
fn a_url_is_opened() {
    let calls = activation_calls(&request("https://example.com", false));
    assert_eq!(calls.len(), 1);
    assert!(matches!(&calls[0], ActivationCall::Open(u) if u == "https://example.com"));
}

#[test]
fn no_url_activates() {
    let calls = activation_calls(&request("", false));
    assert_eq!(calls.len(), 1);
    assert!(matches!(calls[0], ActivationCall::Activate));
}

#[test]
fn reload_comes_first() {
    let calls = activation_calls(&request("https://example.com", true));
    assert_eq!(calls.len(), 2);
    assert!(matches!(calls[0], ActivationCall::Reload));
    assert!(matches!(&calls[1], ActivationCall::Open(u) if u == "https://example.com"));
    let calls = activation_calls(&request("", true));
    assert!(matches!(calls[0], ActivationCall::Reload));
    assert!(matches!(calls[1], ActivationCall::Activate));
}

#[test]
fn activate_opens_the_picker_without_a_url() {
    let r = activate_request(Some("token-1".to_string()));
    assert!(matches!(r, BackendRequest::OpenUrl { ref url, activation_token: Some(ref t) } if url.is_empty() && t == "token-1"));
}

#[test]
fn open_sends_each_url_with_the_token() {
    let r = open_requests(
        vec!["https://a.example".to_string(), "https://b.example".to_string()],
        Some("tok".to_string()),
    );
    assert_eq!(r.len(), 2);
    assert!(matches!(&r[0], BackendRequest::OpenUrl { url, activation_token: Some(t) } if url == "https://a.example" && t == "tok"));
    assert!(matches!(&r[1], BackendRequest::OpenUrl { url, activation_token: Some(t) } if url == "https://b.example" && t == "tok"));
    assert!(open_requests(Vec::new(), None).is_empty());
}

#[test]
fn reload_action_refreshes() {
    assert!(matches!(action_request("reload"), Ok(BackendRequest::Refresh)));
}

#[test]
fn other_actions_are_refused() {
    match action_request("quit") {
        Err(message) => assert_eq!(message, "unknown action quit"),
        Ok(_) => panic!("quit must be refused"),
    }
}
