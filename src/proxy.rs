//! The root context, which holds the active configuration snapshot, and the
//! per-request context, which runs the authorization state machine.
//!
//! The host's events reach these types as plain values: what was read from a
//! buffer, whether a backend call could be dispatched and under which token,
//! the headers of a backend response. Each method answers with the action that
//! the host has to take.
use std::rc::Rc;
use vstd::prelude::*;

verus! {

/// Where one request stands in its authorization.
#[derive(Debug, Clone, Copy, PartialEq, Eq, Structural)]
pub enum RequestState {
    /// The request headers have not been handled yet.
    Started,
    /// A backend call went out under this token; the request is paused.
    AwaitingBackendResponse(u32),
    /// The backend allowed the request and it was resumed.
    Authorized,
    /// The request was answered with the forbidden response.
    Forbidden,
}

/// What the host is asked to do after an event.
#[derive(Debug, Clone, Copy, PartialEq, Eq, Structural)]
pub enum FilterAction {
    /// Answer the request with status 403 and the fixed forbidden body.
    Forbid,
    /// Build the authorization call and dispatch it to the backend.
    Dispatch,
    /// Keep the request paused until the backend responds.
    Pause,
    /// Resume forwarding of the paused request.
    Resume,
    /// Nothing: the event does not concern this request.
    Ignore,
}

/// The status of the forbidden response.
pub const FORBIDDEN_STATUS: u32 = 403;

/// The body of the forbidden response.
pub open spec fn forbidden_body_text() -> Seq<char> {
    "Access forbidden.\n"@
}

/// The body of the forbidden response.
pub fn forbidden_body() -> (r: String)
    ensures
        r@ == forbidden_body_text(),
{
    "Access forbidden.\n".to_owned()
}

pub open spec fn status_key() -> Seq<char> {
    ":status"@
}

pub open spec fn status_ok_value() -> Seq<char> {
    "200"@
}

/// The first `:status` header of a backend response carries `200`.
pub open spec fn status_is_ok(headers: Seq<(String, String)>) -> bool {
    exists|i: int|
        0 <= i < headers.len() && (#[trigger] headers[i]).0@ == status_key() && headers[i].1@
            == status_ok_value() && forall|j: int| 0 <= j < i ==> headers[j].0@ != status_key()
}

/// Tells whether a backend response allows the request: its first `:status`
/// header must be `200`; without one the request is not allowed.
pub fn is_authorized(headers: &Vec<(String, String)>) -> (r: bool)
    ensures
        r == status_is_ok(headers@),
{
    let key = ":status".to_owned();
    let ok = "200".to_owned();
    let mut i: usize = 0;
    while i < headers.len()
        invariant
            i <= headers@.len(),
            key@ == status_key(),
            ok@ == status_ok_value(),
            forall|j: int| 0 <= j < i ==> headers@[j].0@ != status_key(),
        decreases headers@.len() - i,
    {
        if headers[i].0 == key {
            let r = headers[i].1 == ok;
            proof {
                if !r {
                    assert forall|k: int|
                        0 <= k < headers@.len() && (#[trigger] headers@[k]).0@ == status_key()
                            && headers@[k].1@ == status_ok_value() implies exists|j: int|
                        0 <= j < k && headers@[j].0@ == status_key() by {
                        if k > i as int {
                            assert(headers@[i as int].0@ == status_key());
                        }
                    }
                }
            }
            return r;
        }
        i += 1;
    }
    false
}

/// The state and action that the request headers lead to, from `Started`.
pub open spec fn headers_step(params_ok: bool, backend_configured: bool) -> (RequestState, FilterAction) {
    if params_ok && backend_configured {
        (RequestState::Started, FilterAction::Dispatch)
    } else {
        (RequestState::Forbidden, FilterAction::Forbid)
    }
}

/// The state and action that the outcome of a dispatch leads to, from `Started`.
pub open spec fn dispatch_step(token: Option<u32>) -> (RequestState, FilterAction) {
    match token {
        Some(t) => (RequestState::AwaitingBackendResponse(t), FilterAction::Pause),
        None => (RequestState::Forbidden, FilterAction::Forbid),
    }
}

/// The state and action that a backend response under `token` leads to.
pub open spec fn response_step(state: RequestState, token: u32, authorized: bool) -> (
    RequestState,
    FilterAction,
) {
    match state {
        RequestState::AwaitingBackendResponse(t) => {
            if t != token {
                (state, FilterAction::Ignore)
            } else if authorized {
                (RequestState::Authorized, FilterAction::Resume)
            } else {
                (RequestState::Forbidden, FilterAction::Forbid)
            }
        },
        _ => (state, FilterAction::Ignore),
    }
}

/// The context of one request, bound to the configuration snapshot that was
/// active when the request began.
pub struct HttpAuthThreescale<C> {
    pub context_id: u32,
    pub configuration: Rc<C>,
    pub state: RequestState,
}

impl<C> HttpAuthThreescale<C> {
    /// The configuration snapshot of this request.
    pub fn configuration(&self) -> (r: &C)
        ensures
            *r == *self.configuration,
    {
        &*self.configuration
    }

    /// Handles the request headers. `params_ok` tells whether the
    /// authorization parameters could be extracted and decoded,
    /// `backend_configured` whether a backend is there to ask. Only a request
    /// that has just started is concerned.
    pub fn on_http_request_headers(&mut self, params_ok: bool, backend_configured: bool) -> (r:
        FilterAction)
        ensures
            final(self).context_id == old(self).context_id,
            final(self).configuration == old(self).configuration,
            old(self).state == RequestState::Started ==> (final(self).state, r) == headers_step(
                params_ok,
                backend_configured,
            ),
            old(self).state != RequestState::Started ==> final(self).state == old(self).state && r
                == FilterAction::Ignore,
    {
        if self.state != RequestState::Started {
            return FilterAction::Ignore;
        }
        if params_ok && backend_configured {
            FilterAction::Dispatch
        } else {
            self.state = RequestState::Forbidden;
            FilterAction::Forbid
        }
    }

    /// Records the outcome of dispatching the authorization call: the token
    /// that the host gave it, or `None` when the call could not be built or
    /// dispatched.
    pub fn on_dispatch(&mut self, token: Option<u32>) -> (r: FilterAction)
        ensures
            final(self).context_id == old(self).context_id,
            final(self).configuration == old(self).configuration,
            old(self).state == RequestState::Started ==> (final(self).state, r) == dispatch_step(
                token,
            ),
            old(self).state != RequestState::Started ==> final(self).state == old(self).state && r
                == FilterAction::Ignore,
    {
        if self.state != RequestState::Started {
            return FilterAction::Ignore;
        }
        match token {
            Some(t) => {
                self.state = RequestState::AwaitingBackendResponse(t);
                FilterAction::Pause
            },
            None => {
                self.state = RequestState::Forbidden;
                FilterAction::Forbid
            },
        }
    }

    /// Handles the response of a backend call under `token`, with its headers.
    pub fn on_http_call_response(&mut self, token: u32, headers: &Vec<(String, String)>) -> (r:
        FilterAction)
        ensures
            final(self).context_id == old(self).context_id,
            final(self).configuration == old(self).configuration,
            (final(self).state, r) == response_step(old(self).state, token, status_is_ok(headers@)),
    {
        match self.state {
            RequestState::AwaitingBackendResponse(t) => {
                if t != token {
                    return FilterAction::Ignore;
                }
                if is_authorized(headers) {
                    self.state = RequestState::Authorized;
                    FilterAction::Resume
                } else {
                    self.state = RequestState::Forbidden;
                    FilterAction::Forbid
                }
            },
            _ => FilterAction::Ignore,
        }
    }

    /// The header added to every response on its way to the client.
    pub fn on_http_response_headers(&self) -> (r: (String, String))
        ensures
            r.0@ == "Powered-By"@,
            r.1@ == "3scale"@,
    {
        ("Powered-By".to_owned(), "3scale".to_owned())
    }
}

/// What is left to do after the plugin configuration buffer was read.
#[derive(Debug)]
pub enum ConfigureStep {
    /// Configuration ends here with this result.
    Finished(bool),
    /// These bytes are to be parsed, and the outcome installed.
    Parse(Vec<u8>),
}

/// The root context: it holds the startup buffer and the active
/// configuration snapshot, and creates the context of each request.
pub struct RootAuthThreescale<C> {
    pub vm_configuration: Option<Vec<u8>>,
    pub configuration: Option<Rc<C>>,
}

impl<C> RootAuthThreescale<C> {
    pub fn new() -> (r: Self)
        ensures
            r.vm_configuration is None,
            r.configuration is None,
    {
        RootAuthThreescale { vm_configuration: None, configuration: None }
    }

    /// Handles startup with the result of reading the startup buffer (`Err`
    /// when it could not be read). Startup succeeds only with data.
    pub fn on_vm_start(&mut self, buffer: Result<Option<Vec<u8>>, ()>) -> (r: bool)
        ensures
            final(self).configuration == old(self).configuration,
            buffer is Err ==> !r && final(self).vm_configuration == old(self).vm_configuration,
            buffer is Ok ==> final(self).vm_configuration == buffer->Ok_0 && r == buffer->Ok_0 is Some,
    {
        match buffer {
            Err(()) => false,
            Ok(conf) => {
                let started = conf.is_some();
                self.vm_configuration = conf;
                started
            },
        }
    }

    /// Handles the plugin configuration buffer (`Err` when it could not be
    /// read). An empty configuration leaves the module without effect and is
    /// accepted; data is handed on to be parsed.
    pub fn on_configure(&self, buffer: Result<Option<Vec<u8>>, ()>) -> (r: ConfigureStep)
        ensures
            buffer is Err ==> r == ConfigureStep::Finished(false),
            buffer == Ok::<Option<Vec<u8>>, ()>(None) ==> r == ConfigureStep::Finished(true),
            buffer matches Ok(Some(b)) ==> r == ConfigureStep::Parse(b),
    {
        match buffer {
            Err(()) => ConfigureStep::Finished(false),
            Ok(None) => ConfigureStep::Finished(true),
            Ok(Some(b)) => ConfigureStep::Parse(b),
        }
    }

    /// Installs the outcome of parsing a configuration: a valid one replaces
    /// the active snapshot whole, an invalid one changes nothing.
    pub fn install_configuration(&mut self, parsed: Result<C, ()>) -> (r: bool)
        ensures
            final(self).vm_configuration == old(self).vm_configuration,
            final(self).configuration == installed(old(self).configuration, parsed),
            r == parsed is Ok,
    {
        match parsed {
            Ok(c) => {
                self.configuration = Some(Rc::new(c));
                true
            },
            Err(()) => false,
        }
    }

    /// Creates the context of a new request, bound to the active snapshot;
    /// `None` while no configuration was ever installed.
    pub fn on_create_child_context(&self, context_id: u32) -> (r: Option<HttpAuthThreescale<C>>)
        ensures
            r == child_of(self.configuration, context_id),
    {
        match &self.configuration {
            None => None,
            Some(c) => Some(
                HttpAuthThreescale {
                    context_id,
                    configuration: Rc::clone(c),
                    state: RequestState::Started,
                },
            ),
        }
    }
}

/// The snapshot that is active after a parse outcome was installed.
pub open spec fn installed<C>(active: Option<Rc<C>>, parsed: Result<C, ()>) -> Option<Rc<C>> {
    match parsed {
        Ok(c) => Some(Rc::new(c)),
        Err(_) => active,
    }
}

/// The context that a new request gets under the active snapshot.
pub open spec fn child_of<C>(active: Option<Rc<C>>, context_id: u32) -> Option<HttpAuthThreescale<C>> {
    match active {
        None => None,
        Some(c) => Some(
            HttpAuthThreescale { context_id, configuration: c, state: RequestState::Started },
        ),
    }
}

/// A request whose parameters could not be extracted or decoded is answered
/// with the forbidden response, whether or not a backend is configured.
pub proof fn lemma_bad_params_forbidden(backend_configured: bool)
    ensures
        headers_step(false, backend_configured) == (RequestState::Forbidden, FilterAction::Forbid),
{
}

/// A request whose parameters decode but that has no backend to ask is
/// answered with the forbidden response.
pub proof fn lemma_no_backend_forbidden()
    ensures
        headers_step(true, false) == (RequestState::Forbidden, FilterAction::Forbid),
{
}

/// Once a call was dispatched under `token` the request waits, and nothing
/// but a response under that token moves it: a `200` status resumes it, any
/// other status or none forbids it.
pub proof fn lemma_dispatched_waits_for_response(
    token: u32,
    other: u32,
    authorized: bool,
    headers: Seq<(String, String)>,
)
    requires
        other != token,
    ensures
        dispatch_step(Some(token)) == (
            RequestState::AwaitingBackendResponse(token),
            FilterAction::Pause,
        ),
        response_step(RequestState::AwaitingBackendResponse(token), other, authorized) == (
            RequestState::AwaitingBackendResponse(token),
            FilterAction::Ignore,
        ),
        response_step(
            RequestState::AwaitingBackendResponse(token),
            token,
            status_is_ok(headers),
        ) == if status_is_ok(headers) {
            (RequestState::Authorized, FilterAction::Resume)
        } else {
            (RequestState::Forbidden, FilterAction::Forbid)
        },
{
}

/// A response under a token that no pending call of the request holds has
/// no effect: the state stays and nothing is sent.
pub proof fn lemma_unmatched_response_ignored(state: RequestState, token: u32, authorized: bool)
    requires
        state != RequestState::AwaitingBackendResponse(token),
    ensures
        response_step(state, token, authorized) == (state, FilterAction::Ignore),
{
}

/// A resolved request stays resolved: a later response leaves it as it is
/// and sends nothing, so the forbidden response goes out at most once.
pub proof fn lemma_resolved_is_final(state: RequestState, token: u32, authorized: bool)
    requires
        state == RequestState::Authorized || state == RequestState::Forbidden,
    ensures
        response_step(state, token, authorized) == (state, FilterAction::Ignore),
{
}

/// An invalid configuration leaves the active snapshot as it was, and a
/// request that starts afterwards is bound to that snapshot.
pub proof fn lemma_invalid_configuration_keeps_snapshot<C>(active: Option<Rc<C>>, context_id: u32)
    ensures
        installed(active, Err(())) == active,
        child_of(installed(active, Err(())), context_id) == child_of(active, context_id),
        active is Some ==> child_of(installed(active, Err(())), context_id)->0.configuration
            == active->0,
{
}

} // verus!
