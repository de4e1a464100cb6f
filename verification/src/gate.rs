//! The per-request gate: a state machine that turns the host's events
//! (request headers delivered, dispatch accepted or refused, exchange
//! callback) into the actions the host performs (dispatch the exchange
//! call, pause, resume, send a deny response).
//!
//! Transitions are monotonic: `Authorized` and `Denied` are terminal, and
//! once a context is terminal every further event is ignored, so a late or
//! duplicate callback can neither resume nor deny a second time.

use vstd::prelude::*;
use crate::config::Config;
use crate::config::ConfigView;
use crate::credentials::Credentials;
use crate::credentials::extract_credentials;
use crate::credentials::spec_extract;
use crate::evaluate::Verdict;
use crate::evaluate::evaluate_exchange_body;
use crate::evaluate::spec_token_present;
use crate::exchange::ExchangeRequest;
use crate::exchange::build_exchange_request;
use crate::exchange::exchange_request_wf;
use crate::exchange::spec_exchange_body;

verus! {

use vstd::string::StringExecFns;

/// Why a request was denied. Every error path is fail-closed: the request
/// is denied and never forwarded upstream.
#[derive(Clone, Copy, Debug, PartialEq, Eq, Structural)]
pub enum DenyReason {
    /// A credential header was absent; decided locally, no call was made.
    MissingCredentials,
    /// The exchange call could not be dispatched (provider unreachable).
    DispatchFailure,
    /// The exchange response carried no token.
    InvalidCredentials,
    /// No exchange response arrived within the deadline.
    Timeout,
}

/// The state of a request context.
pub enum GateState {
    /// The context exists; no event has been processed yet.
    Created,
    /// Both credential headers were present; the exchange call is being
    /// dispatched.
    CredentialExtracted { credentials: Credentials },
    /// The exchange call is in flight under `call_handle`; the request is
    /// suspended.
    TokenInFlight { call_handle: u32 },
    /// Terminal: the exchange returned a token and the request resumed.
    Authorized,
    /// Terminal: the request was denied.
    Denied { reason: DenyReason },
}

/// Mathematical view of [`GateState`].
pub enum SpecState {
    Created,
    CredentialExtracted { client_id: Seq<char>, client_secret: Seq<char> },
    TokenInFlight { call_handle: u32 },
    Authorized,
    Denied { reason: DenyReason },
}

impl View for GateState {
    type V = SpecState;

    open spec fn view(&self) -> SpecState {
        match self {
            GateState::Created => SpecState::Created,
            GateState::CredentialExtracted { credentials } => SpecState::CredentialExtracted {
                client_id: credentials.client_id@,
                client_secret: credentials.client_secret@,
            },
            GateState::TokenInFlight { call_handle } => SpecState::TokenInFlight {
                call_handle: *call_handle,
            },
            GateState::Authorized => SpecState::Authorized,
            GateState::Denied { reason } => SpecState::Denied { reason: *reason },
        }
    }
}

/// An event delivered to a context, as the transition function sees it.
pub enum SpecEvent {
    /// The host delivered the inbound request's headers.
    RequestHeaders { headers: Seq<(String, String)> },
    /// The host reports whether the exchange call was accepted for
    /// dispatch, and under which handle.
    DispatchResult { accepted: bool, call_handle: u32 },
    /// The host delivered the completion of the call `call_handle`:
    /// the response body, or `None` when no response arrived (timeout or
    /// abort).
    ExchangeCallback { call_handle: u32, body: Option<String> },
}

/// An action asked of the host, as the transition function sees it.
pub enum SpecAction {
    /// Nothing: the event did not concern this context, or the context is
    /// already terminal.
    Ignore,
    /// Dispatch the exchange call carrying `body`, then report back.
    Dispatch { body: Seq<char> },
    /// Suspend the request until the exchange completes.
    Pause,
    /// Resume the suspended request unmodified.
    Resume,
    /// Finalize the request with a 403 response carrying `message`.
    Deny { message: Seq<char> },
}

/// Body of the deny response for extraction and dispatch failures.
pub open spec fn api_failure_message() -> Seq<char> {
    "API invocation failure\n"@
}

/// Body of the deny response when the exchange returned no token.
pub open spec fn access_denied_message() -> Seq<char> {
    "Access Denied\n"@
}

/// Name announced in the `Powered-By` header of deny responses.
pub open spec fn gateway_name() -> Seq<char> {
    "proxy-wasm"@
}

/// The deny response sent to the original caller: a 403 with a fixed,
/// generic message.
pub struct DenyResponse {
    pub status: u16,
    pub headers: Vec<(String, String)>,
    pub body: String,
}

/// Whether `r` is the deny response carrying `message`: status 403 and the
/// single `Powered-By` header.
pub open spec fn deny_response_ok(r: DenyResponse, message: Seq<char>) -> bool {
    &&& r.status == 403
    &&& r.headers@.len() == 1
    &&& r.headers@[0].0@ == "Powered-By"@
    &&& r.headers@[0].1@ == gateway_name()
    &&& r.body@ == message
}

/// Builds the deny response carrying `message`.
pub fn deny_response(message: &str) -> (r: DenyResponse)
    ensures
        deny_response_ok(r, message@),
{
    let mut headers: Vec<(String, String)> = Vec::new();
    headers.push((String::from_str("Powered-By"), String::from_str("proxy-wasm")));
    DenyResponse { status: 403, headers, body: String::from_str(message) }
}

/// The action handed back to the host.
pub enum GateAction {
    /// Nothing to do: the event did not concern this context.
    Ignore,
    /// Dispatch this exchange call, then report the result back.
    Dispatch { request: ExchangeRequest },
    /// Suspend the request until the exchange completes.
    Pause,
    /// Resume the suspended request unmodified.
    Resume,
    /// Finalize the request with this deny response.
    Deny { response: DenyResponse },
}

impl View for GateAction {
    type V = SpecAction;

    open spec fn view(&self) -> SpecAction {
        match self {
            GateAction::Ignore => SpecAction::Ignore,
            GateAction::Dispatch { request } => SpecAction::Dispatch { body: request.body@ },
            GateAction::Pause => SpecAction::Pause,
            GateAction::Resume => SpecAction::Resume,
            GateAction::Deny { response } => SpecAction::Deny { message: response.body@ },
        }
    }
}

/// The transition function of the state machine: from configuration, state and event
/// to the next state and the action handed to the host.
///
/// Terminal states absorb every event, and an event that does not fit the
/// current state is ignored, so late or duplicate deliveries have no
/// effect.
pub open spec fn spec_step(cfg: ConfigView, state: SpecState, event: SpecEvent) -> (
    SpecState,
    SpecAction,
) {
    match (state, event) {
        (SpecState::Created, SpecEvent::RequestHeaders { headers }) => {
            match spec_extract(headers, cfg) {
                Some(cred) => (
                    SpecState::CredentialExtracted {
                        client_id: cred.0,
                        client_secret: cred.1,
                    },
                    SpecAction::Dispatch {
                        body: spec_exchange_body(cfg.idp_audience, cred.0, cred.1),
                    },
                ),
                None => (
                    SpecState::Denied { reason: DenyReason::MissingCredentials },
                    SpecAction::Deny { message: api_failure_message() },
                ),
            }
        },
        (
            SpecState::CredentialExtracted { client_id, client_secret },
            SpecEvent::DispatchResult { accepted, call_handle },
        ) => {
            if accepted {
                (SpecState::TokenInFlight { call_handle }, SpecAction::Pause)
            } else {
                (
                    SpecState::Denied { reason: DenyReason::DispatchFailure },
                    SpecAction::Deny { message: api_failure_message() },
                )
            }
        },
        (
            SpecState::TokenInFlight { call_handle },
            SpecEvent::ExchangeCallback { call_handle: delivered, body },
        ) => {
            if delivered != call_handle {
                (state, SpecAction::Ignore)
            } else {
                match body {
                    Some(b) => {
                        if spec_token_present(b@) {
                            (SpecState::Authorized, SpecAction::Resume)
                        } else {
                            (
                                SpecState::Denied { reason: DenyReason::InvalidCredentials },
                                SpecAction::Deny { message: access_denied_message() },
                            )
                        }
                    },
                    None => (
                        SpecState::Denied { reason: DenyReason::Timeout },
                        SpecAction::Deny { message: access_denied_message() },
                    ),
                }
            }
        },
        _ => (state, SpecAction::Ignore),
    }
}

/// A per-request context: the configuration copy, the context's identity,
/// and the current state.
pub struct Gate {
    /// The process-wide configuration, copied in at creation.
    pub config: Config,
    /// Identity of the context, for diagnostics.
    pub context_id: u32,
    /// Current state of the state machine.
    pub state: GateState,
}

impl Gate {
    /// Creates the context for one inbound request, in the initial state.
    pub fn new(config: Config, context_id: u32) -> (g: Gate)
        ensures
            g.state@ is Created,
            g.config == config,
            g.context_id == context_id,
    {
        Gate { config, context_id, state: GateState::Created }
    }

    /// Handles the delivery of the inbound request's headers: extracts the
    /// credentials and either hands back the exchange call to dispatch, or
    /// denies the request on the spot when a credential header is missing.
    pub fn on_request_headers(&mut self, headers: &Vec<(String, String)>) -> (action: GateAction)
        ensures
            (final(self).state@, action@) == spec_step(
                old(self).config@,
                old(self).state@,
                SpecEvent::RequestHeaders { headers: headers@ },
            ),
            final(self).config == old(self).config,
            final(self).context_id == old(self).context_id,
            action matches GateAction::Dispatch { request } ==> exchange_request_wf(
                request,
                old(self).config@,
            ),
            action matches GateAction::Deny { response } ==> deny_response_ok(
                response,
                api_failure_message(),
            ),
    {
        match &self.state {
            GateState::Created => {
                match extract_credentials(headers, &self.config) {
                    Some(credentials) => {
                        let request = build_exchange_request(&self.config, &credentials);
                        self.state = GateState::CredentialExtracted { credentials };
                        GateAction::Dispatch { request }
                    },
                    None => {
                        self.state = GateState::Denied {
                            reason: DenyReason::MissingCredentials,
                        };
                        GateAction::Deny { response: deny_response("API invocation failure\n") }
                    },
                }
            },
            _ => GateAction::Ignore,
        }
    }

    /// Handles the host's report on the dispatch of the exchange call:
    /// pauses the request when the call is in flight, or denies it when
    /// dispatch itself failed (provider unreachable) — without ever
    /// pausing.
    pub fn on_dispatch_result(&mut self, accepted: bool, call_handle: u32) -> (action: GateAction)
        ensures
            (final(self).state@, action@) == spec_step(
                old(self).config@,
                old(self).state@,
                SpecEvent::DispatchResult { accepted, call_handle },
            ),
            final(self).config == old(self).config,
            final(self).context_id == old(self).context_id,
            action matches GateAction::Deny { response } ==> deny_response_ok(
                response,
                api_failure_message(),
            ),
    {
        match &self.state {
            GateState::CredentialExtracted { .. } => {
                if accepted {
                    self.state = GateState::TokenInFlight { call_handle };
                    GateAction::Pause
                } else {
                    self.state = GateState::Denied { reason: DenyReason::DispatchFailure };
                    GateAction::Deny { response: deny_response("API invocation failure\n") }
                }
            },
            _ => GateAction::Ignore,
        }
    }

    /// Handles the completion callback of an exchange call: resumes the
    /// request when the response body carries the token marker, denies it
    /// otherwise (no token, or no response at all). A callback bound to
    /// another call handle, or arriving once the context is terminal, is
    /// ignored.
    pub fn on_exchange_callback(&mut self, call_handle: u32, body: Option<String>) -> (action:
        GateAction)
        ensures
            (final(self).state@, action@) == spec_step(
                old(self).config@,
                old(self).state@,
                SpecEvent::ExchangeCallback { call_handle, body },
            ),
            final(self).config == old(self).config,
            final(self).context_id == old(self).context_id,
            action matches GateAction::Deny { response } ==> deny_response_ok(
                response,
                access_denied_message(),
            ),
    {
        match &self.state {
            GateState::TokenInFlight { call_handle: in_flight } => {
                if call_handle != *in_flight {
                    return GateAction::Ignore;
                }
                match &body {
                    Some(b) => {
                        match evaluate_exchange_body(b.as_str()) {
                            Verdict::Authorized => {
                                self.state = GateState::Authorized;
                                GateAction::Resume
                            },
                            Verdict::Denied { reason } => {
                                self.state = GateState::Denied { reason };
                                GateAction::Deny {
                                    response: deny_response("Access Denied\n"),
                                }
                            },
                        }
                    },
                    None => {
                        self.state = GateState::Denied { reason: DenyReason::Timeout };
                        GateAction::Deny { response: deny_response("Access Denied\n") }
                    },
                }
            },
            _ => GateAction::Ignore,
        }
    }
}

} // verus!
