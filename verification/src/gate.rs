//! The authentication gate: one small state machine per request.
//!
//! The machine itself performs no I/O and keeps no state between requests. Its
//! caller reads the request, asks the credential verifier and runs the next
//! handler; the machine decides, from what happened so far, what has to happen
//! next. Every request starts from [`GateState::Start`].

use crate::credential::{
    authorization_name, authorization_of, read_authorization, Authorization, AuthorizationView,
};
use crate::headers::{first_value, header_entries};
use http::{HeaderMap, HeaderValue};
use vstd::prelude::*;

verus! {

/// Why a request was turned away.
#[derive(Clone, Copy, Debug, PartialEq, Eq, Structural)]
pub enum AuthError {
    MissingHeader,
    MalformedHeader,
    InvalidToken,
}

impl AuthError {
    /// The status code of every rejection: 401 Unauthorized.
    pub open spec fn spec_status(self) -> u16 {
        401
    }

    /// The message shown to the client.
    pub open spec fn spec_message(self) -> Seq<char> {
        match self {
            AuthError::MissingHeader => "Authorization header missing."@,
            AuthError::MalformedHeader => "Authorization header format invalid."@,
            AuthError::InvalidToken => "Authorization token invalid."@,
        }
    }

    pub fn status(&self) -> (code: u16)
        ensures
            code == self.spec_status(),
    {
        401
    }

    pub fn message(&self) -> (text: &'static str)
        ensures
            text@ == self.spec_message(),
    {
        match self {
            AuthError::MissingHeader => "Authorization header missing.",
            AuthError::MalformedHeader => "Authorization header format invalid.",
            AuthError::InvalidToken => "Authorization token invalid.",
        }
    }
}

/// The reasons a credential verifier may give for turning a token down. The
/// gate treats them all alike.
#[derive(Clone, Copy, Debug, PartialEq, Eq, Structural)]
pub enum VerifierFailure {
    BadSignature,
    Revoked,
    NotAMember,
    NetworkError,
}

/// The verified principal of one request.
#[derive(Clone, Debug, PartialEq, Eq)]
pub struct IdentityContext {
    /// Who the principal is.
    pub subject: String,
    /// Whether the principal holds administrative access.
    pub is_admin: bool,
}

pub struct IdentityView {
    pub subject: Seq<char>,
    pub is_admin: bool,
}

impl View for IdentityContext {
    type V = IdentityView;

    open spec fn view(&self) -> IdentityView {
        IdentityView { subject: self.subject@, is_admin: self.is_admin }
    }
}


/// Where the machine stands with one request.
#[derive(Clone, Debug, PartialEq, Eq)]
pub enum GateState {
    /// Nothing is known of the request yet.
    Start,
    /// Final: the request carried no `Authorization` header.
    HeaderMissing,
    /// Final: the header was not `Bearer <token>`.
    HeaderMalformed,
    /// The token is out and the verifier is being asked.
    CredentialExtracted,
    /// The verifier accepted the token.
    Verified { identity: IdentityContext },
    /// Final: the verifier turned the token down.
    Rejected,
    /// Final: the request went on to the next handler.
    Admitted { identity: IdentityContext },
}

pub enum GateStateView {
    Start,
    HeaderMissing,
    HeaderMalformed,
    CredentialExtracted,
    Verified { identity: IdentityView },
    Rejected,
    Admitted { identity: IdentityView },
}

impl View for GateState {
    type V = GateStateView;

    open spec fn view(&self) -> GateStateView {
        match self {
            GateState::Start => GateStateView::Start,
            GateState::HeaderMissing => GateStateView::HeaderMissing,
            GateState::HeaderMalformed => GateStateView::HeaderMalformed,
            GateState::CredentialExtracted => GateStateView::CredentialExtracted,
            GateState::Verified { identity } => GateStateView::Verified { identity: identity@ },
            GateState::Rejected => GateStateView::Rejected,
            GateState::Admitted { identity } => GateStateView::Admitted { identity: identity@ },
        }
    }
}

/// What the caller reports back to the machine.
#[derive(Debug, PartialEq, Eq)]
pub enum GateEvent {
    /// The `Authorization` header of the request has been read.
    HeaderRead(Authorization),
    /// The credential verifier has answered.
    VerifierReturned(Result<IdentityContext, VerifierFailure>),
    /// The identity has been attached to the request.
    IdentityAttached,
}

pub enum GateEventView {
    HeaderRead(AuthorizationView),
    VerifierReturned(Result<IdentityView, VerifierFailure>),
    IdentityAttached,
}

impl View for GateEvent {
    type V = GateEventView;

    open spec fn view(&self) -> GateEventView {
        match self {
            GateEvent::HeaderRead(reading) => GateEventView::HeaderRead(reading@),
            GateEvent::VerifierReturned(Ok(identity)) => GateEventView::VerifierReturned(
                Ok(identity@),
            ),
            GateEvent::VerifierReturned(Err(failure)) => GateEventView::VerifierReturned(
                Err(*failure),
            ),
            GateEvent::IdentityAttached => GateEventView::IdentityAttached,
        }
    }
}

/// What the machine asks its caller to do next.
#[derive(Clone, Debug, PartialEq, Eq)]
pub enum GateAction {
    /// Answer the client with the status and message of `error`; run no handler.
    Respond { error: AuthError },
    /// Ask the credential verifier about `token`.
    Verify { token: String },
    /// Attach `identity` to the request, for the handlers that follow.
    Attach { identity: IdentityContext },
    /// Pass the request to the next handler.
    Forward,
    /// Nothing: the event does not concern the state the machine is in.
    Idle,
}

pub enum GateActionView {
    Respond { error: AuthError },
    Verify { token: Seq<char> },
    Attach { identity: IdentityView },
    Forward,
    Idle,
}

impl View for GateAction {
    type V = GateActionView;

    open spec fn view(&self) -> GateActionView {
        match self {
            GateAction::Respond { error } => GateActionView::Respond { error: *error },
            GateAction::Verify { token } => GateActionView::Verify { token: token@ },
            GateAction::Attach { identity } => GateActionView::Attach { identity: identity@ },
            GateAction::Forward => GateActionView::Forward,
            GateAction::Idle => GateActionView::Idle,
        }
    }
}

/// The transition table of the machine. An event that does not concern the
/// current state leaves the state as it is and asks for nothing.
pub open spec fn spec_step(state: GateStateView, event: GateEventView) -> (
    GateStateView,
    GateActionView,
) {
    match (state, event) {
        (GateStateView::Start, GateEventView::HeaderRead(AuthorizationView::Missing)) => (
            GateStateView::HeaderMissing,
            GateActionView::Respond { error: AuthError::MissingHeader },
        ),
        (GateStateView::Start, GateEventView::HeaderRead(AuthorizationView::Malformed)) => (
            GateStateView::HeaderMalformed,
            GateActionView::Respond { error: AuthError::MalformedHeader },
        ),
        (GateStateView::Start, GateEventView::HeaderRead(AuthorizationView::Bearer { token })) => (
            GateStateView::CredentialExtracted,
            GateActionView::Verify { token },
        ),
        (GateStateView::CredentialExtracted, GateEventView::VerifierReturned(Ok(identity))) => (
            GateStateView::Verified { identity },
            GateActionView::Attach { identity },
        ),
        (GateStateView::CredentialExtracted, GateEventView::VerifierReturned(Err(_))) => (
            GateStateView::Rejected,
            GateActionView::Respond { error: AuthError::InvalidToken },
        ),
        (GateStateView::Verified { identity }, GateEventView::IdentityAttached) => (
            GateStateView::Admitted { identity },
            GateActionView::Forward,
        ),
        (state, _) => (state, GateActionView::Idle),
    }
}

/// The states in which a request ends.
pub open spec fn is_terminal(state: GateStateView) -> bool {
    state is HeaderMissing || state is HeaderMalformed || state is Rejected || state is Admitted
}

impl GateState {
    /// The state of a request nothing is known of yet.
    pub fn start() -> (state: GateState)
        ensures
            state@ == GateStateView::Start,
    {
        GateState::Start
    }

    /// Whether the request has ended, one way or the other.
    pub fn is_terminal(&self) -> (ended: bool)
        ensures
            ended == is_terminal(self@),
    {
        match self {
            GateState::HeaderMissing => true,
            GateState::HeaderMalformed => true,
            GateState::Rejected => true,
            GateState::Admitted { .. } => true,
            _ => false,
        }
    }

    /// Takes one event and gives the next state and what to do.
    pub fn step(self, event: GateEvent) -> (next: (GateState, GateAction))
        ensures
            (next.0@, next.1@) == spec_step(self@, event@),
    {
        match self {
            GateState::Start => match event {
                GateEvent::HeaderRead(Authorization::Missing) => (
                    GateState::HeaderMissing,
                    GateAction::Respond { error: AuthError::MissingHeader },
                ),
                GateEvent::HeaderRead(Authorization::Malformed) => (
                    GateState::HeaderMalformed,
                    GateAction::Respond { error: AuthError::MalformedHeader },
                ),
                GateEvent::HeaderRead(Authorization::Bearer { token }) => (
                    GateState::CredentialExtracted,
                    GateAction::Verify { token },
                ),
                _ => (GateState::Start, GateAction::Idle),
            },
            GateState::CredentialExtracted => match event {
                GateEvent::VerifierReturned(Ok(identity)) => {
                    let attached = identity.duplicate();
                    (GateState::Verified { identity }, GateAction::Attach { identity: attached })
                },
                GateEvent::VerifierReturned(Err(_)) => (
                    GateState::Rejected,
                    GateAction::Respond { error: AuthError::InvalidToken },
                ),
                _ => (GateState::CredentialExtracted, GateAction::Idle),
            },
            GateState::Verified { identity } => match event {
                GateEvent::IdentityAttached => (GateState::Admitted { identity }, GateAction::Forward),
                _ => (GateState::Verified { identity }, GateAction::Idle),
            },
            state => (state, GateAction::Idle),
        }
    }

    /// Starts on a request: reads its `Authorization` header and takes the
    /// first step.
    pub fn begin(headers: &HeaderMap<HeaderValue>) -> (next: (GateState, GateAction))
        ensures
            (next.0@, next.1@) == spec_step(
                GateStateView::Start,
                GateEventView::HeaderRead(
                    authorization_of(first_value(header_entries(*headers), authorization_name())),
                ),
            ),
    {
        GateState::start().step(GateEvent::HeaderRead(read_authorization(headers)))
    }
}

impl IdentityContext {
    pub fn new(subject: String, is_admin: bool) -> (identity: IdentityContext)
        ensures
            identity@ == (IdentityView { subject: subject@, is_admin }),
    {
        IdentityContext { subject, is_admin }
    }

    /// A second value with the same attributes.
    pub fn duplicate(&self) -> (copy: IdentityContext)
        ensures
            copy@ == self@,
    {
        IdentityContext { subject: self.subject.clone(), is_admin: self.is_admin }
    }
}

} // verus!
