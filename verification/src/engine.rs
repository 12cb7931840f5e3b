//! The negotiation engine: the session-level state machine that orchestrates
//! the codecs (RFC 1928 section 3, RFC 1929).
//!
//! States: awaiting the client's methods, awaiting credentials (when
//! username/password was selected), authenticated, rejected (no acceptable
//! method), failed (bad credentials). The engine performs no I/O: the caller
//! reads each client message from the transport, hands it (or, for
//! credentials, the validator's verdict on it) to the engine, and writes the
//! reply the engine produces. The four phases of one connection are strictly
//! sequential; any codec failure aborts the negotiation with the
//! originating error and nothing is retried.

use vstd::prelude::*;

use crate::auth::reply::AuthReply;
use crate::auth::reply::AuthStatus;
use crate::error::SocksError;
use crate::msg::message::MethodSelection;
use crate::msg::message::VersionMessage;
use crate::msg::method::FixedMethod;
use crate::msg::method::Method;

verus! {

/// Phase of one connection's negotiation.
#[derive(Debug, Copy, Clone, PartialEq, Eq, Structural)]
pub enum NegotiationState {
    /// Waiting for the client's version/methods message.
    AwaitingMethods,
    /// Username/password was selected; waiting for the client's credentials.
    AwaitingAuth,
    /// A method was selected and any required authentication succeeded; the
    /// connection request may be read.
    Authenticated,
    /// No proposed method was acceptable; the connection is to be closed
    /// right after the selection reply is sent.
    Rejected,
    /// Authentication failed; the connection is to be closed right after the
    /// failure reply is sent.
    Failed,
}

/// The negotiation engine of one connection, holding the two capabilities
/// configured at server start: whether no-authentication is allowed and
/// whether a username/password validator is present.
#[derive(Debug, Clone, PartialEq, Eq)]
pub struct Negotiation {
    /// Whether the server accepts the no-authentication method.
    pub allow_no_auth: bool,
    /// Whether a username/password validator is configured.
    pub has_validator: bool,
    /// Current phase.
    pub state: NegotiationState,
}

/// Whether a method list contains a given method.
fn contains_method(methods: &Vec<Method>, m: Method) -> (r: bool)
    ensures
        r == methods@.contains(m),
{
    let mut i: usize = 0;
    while i < methods.len()
        invariant
            i <= methods@.len(),
            forall|j: int| 0 <= j < i ==> methods@[j] != m,
        decreases methods@.len() - i,
    {
        if methods[i] == m {
            return true;
        }
        i = i + 1;
    }
    false
}

impl Negotiation {
    /// The method the engine selects for a proposed set: no-authentication
    /// if it is allowed and proposed (whatever its position in the list),
    /// else username/password if a validator is configured and it is
    /// proposed, else no-acceptable. No-authentication deliberately has
    /// priority over username/password: the server selects by its own
    /// policy, not by the client's order of preference.
    pub open spec fn spec_selected(self, methods: Seq<Method>) -> Method {
        if self.allow_no_auth && methods.contains(Method::Fixed(FixedMethod::NoAuth)) {
            Method::Fixed(FixedMethod::NoAuth)
        } else if self.has_validator && methods.contains(Method::Fixed(FixedMethod::UsePass)) {
            Method::Fixed(FixedMethod::UsePass)
        } else {
            Method::Fixed(FixedMethod::NoAcceptable)
        }
    }

    /// Creates the engine for one connection with the given capabilities.
    pub fn new(allow_no_auth: bool, has_validator: bool) -> (n: Negotiation)
        ensures
            n.allow_no_auth == allow_no_auth,
            n.has_validator == has_validator,
            n.state is AwaitingMethods,
    {
        Negotiation { allow_no_auth, has_validator, state: NegotiationState::AwaitingMethods }
    }

    /// Selects the authentication method for the client's proposal and
    /// advances the engine.
    ///
    /// Returns the selection message, which the caller sends back in every
    /// case, and the outcome: an error exactly when no proposed method is
    /// acceptable, in which case the caller closes the connection after
    /// sending the reply.
    pub fn select_method(&mut self, msg: &VersionMessage) -> (r: (
        MethodSelection,
        Result<(), SocksError>,
    ))
        requires
            old(self).state is AwaitingMethods,
        ensures
            final(self).allow_no_auth == old(self).allow_no_auth,
            final(self).has_validator == old(self).has_validator,
            r.0.ver == 5,
            r.0.method == old(self).spec_selected(msg.methods@),
            r.0.method == Method::Fixed(FixedMethod::NoAuth) ==> final(self).state
                is Authenticated && r.1 is Ok,
            r.0.method == Method::Fixed(FixedMethod::UsePass) ==> final(self).state
                is AwaitingAuth && r.1 is Ok,
            r.0.method == Method::Fixed(FixedMethod::NoAcceptable) ==> final(self).state
                is Rejected && (r.1 matches Err(e) && e matches SocksError::AuthFailed(m) && m@
                == "no acceptable method"@),
    {
        let selected = if self.allow_no_auth && contains_method(
            &msg.methods,
            Method::Fixed(FixedMethod::NoAuth),
        ) {
            Method::Fixed(FixedMethod::NoAuth)
        } else if self.has_validator && contains_method(
            &msg.methods,
            Method::Fixed(FixedMethod::UsePass),
        ) {
            Method::Fixed(FixedMethod::UsePass)
        } else {
            Method::Fixed(FixedMethod::NoAcceptable)
        };
        let outcome = match selected {
            Method::Fixed(FixedMethod::NoAuth) => {
                self.state = NegotiationState::Authenticated;
                Ok(())
            },
            Method::Fixed(FixedMethod::UsePass) => {
                self.state = NegotiationState::AwaitingAuth;
                Ok(())
            },
            _ => {
                self.state = NegotiationState::Rejected;
                Err(SocksError::AuthFailed("no acceptable method".to_owned()))
            },
        };
        (MethodSelection::new(selected), outcome)
    }

    /// Completes the username/password sub-negotiation with the validator's
    /// verdict on the credentials the caller read.
    ///
    /// Returns the reply, which the caller sends back in every case, and the
    /// outcome: success advances the engine to the request phase; failure
    /// produces the authentication error, and the caller closes the
    /// connection after sending the failure reply.
    pub fn complete_auth(&mut self, credentials_valid: bool) -> (r: (
        AuthReply,
        Result<(), SocksError>,
    ))
        requires
            old(self).state is AwaitingAuth,
        ensures
            final(self).allow_no_auth == old(self).allow_no_auth,
            final(self).has_validator == old(self).has_validator,
            r.0.ver == 1,
            credentials_valid ==> r.0.status is Success && final(self).state is Authenticated
                && r.1 is Ok,
            !credentials_valid ==> r.0.status is Failure && final(self).state is Failed && (
            r.1 matches Err(e) && e matches SocksError::AuthFailed(m) && m@
                == "invalid credentials"@),
    {
        if credentials_valid {
            self.state = NegotiationState::Authenticated;
            (AuthReply::new(AuthStatus::Success), Ok(()))
        } else {
            self.state = NegotiationState::Failed;
            (
                AuthReply::new(AuthStatus::Failure),
                Err(SocksError::AuthFailed("invalid credentials".to_owned())),
            )
        }
    }
}

} // verus!
