//! Talking to a running Browsers daemon over the session bus: what a
//! client asks the daemon, and what the daemon's application service
//! passes on to the backend.

use vstd::prelude::*;
use vstd::string::*;
use crate::text::str_eq;

verus! {

/// A request forwarded to a running daemon.
pub struct DaemonRequest {
    pub url: String,
    pub reload: bool,
    pub activation_token: Option<String>,
}

/// A method call a client makes on the daemon's application object, each
/// carrying the request's activation token as platform data.
pub enum ActivationCall {
    /// `ActivateAction("reload")`.
    Reload,
    /// `Activate`: show the picker without a URL.
    Activate,
    /// `Open([url])`.
    Open(String),
}

/// The calls that forward a request, in order: a reload first when asked
/// for, then opening the URL, or plain activation when there is none.
pub open spec fn activation_plan(request: DaemonRequest) -> Seq<ActivationCall> {
    (if request.reload { seq![ActivationCall::Reload] } else { Seq::empty() }) + seq![
        if request.url@.len() == 0 {
            ActivationCall::Activate
        } else {
            ActivationCall::Open(request.url)
        },
    ]
}

/// The calls that forward a request to the daemon (the caller stops at the
/// first call that fails).
pub fn activation_calls(request: &DaemonRequest) -> (r: Vec<ActivationCall>)
    ensures
        r@ == activation_plan(*request),
{
    let mut calls: Vec<ActivationCall> = Vec::new();
    if request.reload {
        calls.push(ActivationCall::Reload);
    }
    if request.url.as_str().unicode_len() == 0 {
        calls.push(ActivationCall::Activate);
    } else {
        calls.push(ActivationCall::Open(request.url.clone()));
    }
    assert(calls@ =~= activation_plan(*request));
    calls
}

/// What the daemon's application service passes on to the backend.
pub enum BackendRequest {
    /// Reload the browser profiles.
    Refresh,
    /// Show the picker for a URL (empty for none); no source application
    /// is known for requests from the bus.
    OpenUrl { url: String, activation_token: Option<String> },
}

/// The backend request for `Activate`: the picker without a URL.
pub fn activate_request(activation_token: Option<String>) -> (r: BackendRequest)
    ensures
        r matches BackendRequest::OpenUrl { url, activation_token: t } && url@ == Seq::<char>::empty()
            && t == activation_token,
{
    BackendRequest::OpenUrl { url: String::new(), activation_token }
}

/// The backend requests for `Open`: one per URL, in order, each with the
/// call's activation token (the caller stops at the first that cannot be
/// delivered).
pub fn open_requests(uris: Vec<String>, activation_token: Option<String>) -> (r: Vec<BackendRequest>)
    ensures
        r@.len() == uris@.len(),
        forall|i: int| 0 <= i < r@.len() ==> #[trigger] r@[i] == (BackendRequest::OpenUrl {
            url: uris@[i],
            activation_token,
        }),
{
    let mut r: Vec<BackendRequest> = Vec::new();
    let mut i: usize = 0;
    while i < uris.len()
        invariant
            i <= uris@.len(),
            r@.len() == i,
            forall|j: int| 0 <= j < i ==> #[trigger] r@[j] == (BackendRequest::OpenUrl {
                url: uris@[j],
                activation_token,
            }),
        decreases uris.len() - i,
    {
        let token = match &activation_token {
            Some(t) => Some(t.clone()),
            None => None,
        };
        r.push(BackendRequest::OpenUrl { url: uris[i].clone(), activation_token: token });
        i = i + 1;
    }
    r
}

/// The backend request for `ActivateAction`: the only action is `reload`;
/// any other name is refused with `unknown action <name>`.
pub fn action_request(action_name: &str) -> (r: Result<BackendRequest, String>)
    ensures
        action_name@ == "reload"@ ==> r matches Ok(BackendRequest::Refresh),
        action_name@ != "reload"@ ==> (r matches Err(message) && message@ == "unknown action "@ + action_name@),
{
    if str_eq(action_name, "reload") {
        Ok(BackendRequest::Refresh)
    } else {
        let mut message = String::from_str("unknown action ");
        message.append(action_name);
        Err(message)
    }
}

} // verus!
