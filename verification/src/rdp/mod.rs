//! RDP support for the controlling side: TPKT framing, the X.224 connection phase
//! and RDP security negotiation. A session cannot be established with these
//! alone.
use vstd::prelude::*;
use vstd::string::StringExecFns;
use crate::text;
use crate::rdp::connection::NegotiationFailure;

pub mod connection;
pub mod laws;

verus! {

/// Everything that can go wrong while talking to an RDP server.
#[derive(Debug, Clone, PartialEq, Eq)]
pub enum RdpError {
    /// The socket failed. `kind` names the kind of failure.
    Io { what: &'static str, kind: String, message: String },
    /// The server sent something this client cannot use. The text names what.
    Protocol(String),
    /// The server refused the connection during negotiation.
    NegotiationRefused(NegotiationFailure),
    /// A part of RDP this client does not implement.
    NotImplemented(&'static str),
}

impl RdpError {
    /// A protocol error with the given text.
    pub fn protocol(message: String) -> (r: Self)
        ensures
            r == RdpError::Protocol(message),
    {
        RdpError::Protocol(message)
    }

    /// A failed read or write of `what`.
    pub fn io(what: &'static str, kind: String, message: String) -> (r: Self)
        ensures
            r == (RdpError::Io { what, kind, message }),
    {
        RdpError::Io { what, kind, message }
    }

    /// The text this error is shown as.
    pub open spec fn shown(&self) -> Seq<char> {
        match *self {
            RdpError::Io { what, kind, message } => "rdp "@ + what@ + " ("@ + kind@ + "): "@
                + message@,
            RdpError::Protocol(text) => "rdp protocol: "@ + text@,
            RdpError::NegotiationRefused(failure) => "rdp negotiation refused: "@ + failure.name()
                + " -- "@ + failure.hint(),
            RdpError::NotImplemented(part) => "rdp "@ + part@
                + " is not implemented in this client"@,
        }
    }

    /// The text this error is shown as.
    pub fn to_string(&self) -> (r: String)
        ensures
            r@ == self.shown(),
    {
        match self {
            RdpError::Io { what, kind, message } => {
                let mut r = "rdp ".to_owned();
                r.append(what);
                r.append(" (");
                r.append(kind.as_str());
                r.append("): ");
                r.append(message.as_str());
                r
            },
            RdpError::Protocol(text) => text::joined("rdp protocol: ", text.as_str()),
            RdpError::NegotiationRefused(failure) => {
                let mut r = "rdp negotiation refused: ".to_owned();
                r.append(failure.label().as_str());
                r.append(" -- ");
                r.append(failure.advice());
                r
            },
            RdpError::NotImplemented(part) => {
                let mut r = "rdp ".to_owned();
                r.append(part);
                r.append(" is not implemented in this client");
                r
            },
        }
    }
}

/// `e` is a protocol error with the given text.
pub open spec fn is_protocol(e: RdpError, text: Seq<char>) -> bool {
    e matches RdpError::Protocol(t) && t@ == text
}

} // verus!
