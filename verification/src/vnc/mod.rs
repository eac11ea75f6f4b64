//! VNC (RFB) client.
//!
//! The client controls: it reads a server's framebuffer and sends pointer and
//! keyboard events.
//! - [`protocol`] is the wire: constants, message encoders, rectangle decoding.
//! - [`auth`] is the DES that VNC authentication needs.
//! - [`session`] is the handshake and the messages of a running session.
//! - [`live`] is the framebuffer that updates are painted on.
use vstd::prelude::*;
use vstd::string::StringExecFns;
use crate::text;
use crate::vnc::protocol::Encoding;

pub mod auth;
pub mod des_tables;
pub mod handshake_laws;
pub mod laws;
pub mod live;
pub mod protocol;
pub mod scripted;
pub mod session;

verus! {

/// Everything that can go wrong while talking to a VNC server.
#[derive(Debug, Clone)]
pub enum VncError {
    /// The socket failed. `kind` names the kind of failure.
    Io { what: &'static str, kind: String, message: String },
    /// The server sent something this client cannot use. The text names what.
    Protocol(String),
    /// The server offered only authentication this client does not implement.
    UnsupportedSecurity(Vec<String>),
    /// The server refused the password.
    AuthenticationRejected(String),
    /// The geometry or a rectangle does not fit the reported framebuffer.
    Geometry(String),
}

/// An error with its texts as sequences.
pub enum VncErrorView {
    Io { what: Seq<char>, kind: Seq<char>, message: Seq<char> },
    Protocol(Seq<char>),
    UnsupportedSecurity(Seq<Seq<char>>),
    AuthenticationRejected(Seq<char>),
    Geometry(Seq<char>),
}

impl View for VncError {
    type V = VncErrorView;

    open spec fn view(&self) -> VncErrorView {
        match *self {
            VncError::Io { what, kind, message } => VncErrorView::Io {
                what: what@,
                kind: kind@,
                message: message@,
            },
            VncError::Protocol(text) => VncErrorView::Protocol(text@),
            VncError::UnsupportedSecurity(offered) => VncErrorView::UnsupportedSecurity(
                text::texts(offered@),
            ),
            VncError::AuthenticationRejected(reason) => VncErrorView::AuthenticationRejected(
                reason@,
            ),
            VncError::Geometry(text) => VncErrorView::Geometry(text@),
        }
    }
}

impl VncError {
    /// A protocol error with the given text.
    pub fn protocol(message: String) -> (r: Self)
        ensures
            r == VncError::Protocol(message),
    {
        VncError::Protocol(message)
    }

    /// A failed read or write of `what`.
    pub fn io(what: &'static str, kind: String, message: String) -> (r: Self)
        ensures
            r == (VncError::Io { what, kind, message }),
    {
        VncError::Io { what, kind, message }
    }

    /// A geometry error with the given text.
    pub fn geometry(message: String) -> (r: Self)
        ensures
            r == VncError::Geometry(message),
    {
        VncError::Geometry(message)
    }

    /// The refusal of a rectangle in an encoding this client does not read.
    pub fn unsupported_encoding(encoding: Encoding) -> (r: Self)
        ensures
            r matches VncError::Protocol(text) && text@ == unsupported_encoding_text(encoding),
    {
        let mut text = "server used the ".to_owned();
        text.append(encoding.label().as_str());
        text.append(" encoding, which this client does not implement");
        VncError::Protocol(text)
    }

    /// The text this error is shown as.
    pub open spec fn shown(&self) -> Seq<char> {
        match self {
            VncError::Io { what, kind, message } => "vnc "@ + what@ + " ("@ + kind@ + "): "@
                + message@,
            VncError::Protocol(text) => "vnc protocol: "@ + text@,
            VncError::UnsupportedSecurity(offered) =>
            "vnc server offers no supported authentication; it offered "@ + text::listed(text::texts(offered@), ", "@),
            VncError::AuthenticationRejected(reason) => "vnc authentication rejected: "@ + reason@,
            VncError::Geometry(text) => "vnc geometry: "@ + text@,
        }
    }

    /// The text this error is shown as.
    pub fn to_string(&self) -> (r: String)
        ensures
            r@ == self.shown(),
    {
        match self {
            VncError::Io { what, kind, message } => {
                let mut r = "vnc ".to_owned();
                r.append(what);
                r.append(" (");
                r.append(kind.as_str());
                r.append("): ");
                r.append(message.as_str());
                r
            },
            VncError::Protocol(text) => text::joined("vnc protocol: ", text.as_str()),
            VncError::UnsupportedSecurity(offered) => text::joined(
                "vnc server offers no supported authentication; it offered ",
                text::list_text(offered, ", ").as_str(),
            ),
            VncError::AuthenticationRejected(reason) => text::joined(
                "vnc authentication rejected: ",
                reason.as_str(),
            ),
            VncError::Geometry(text) => text::joined("vnc geometry: ", text.as_str()),
        }
    }
}

/// The text that refuses `encoding`.
pub open spec fn unsupported_encoding_text(encoding: Encoding) -> Seq<char> {
    "server used the "@ + encoding.name() + " encoding, which this client does not implement"@
}

/// The failure of reading `what` when the input ends too soon.
pub fn short_read(what: &'static str) -> (r: VncError)
    ensures
        is_short_read(r, what@),
{
    VncError::io(what, "UnexpectedEof".to_owned(), "failed to fill whole buffer".to_owned())
}

/// `e` says that the input ended inside `what`.
pub open spec fn is_short_read(e: VncError, what: Seq<char>) -> bool {
    e matches VncError::Io { what: w, kind, message } && w@ == what && kind@ == "UnexpectedEof"@
        && message@ == "failed to fill whole buffer"@
}

} // verus!
