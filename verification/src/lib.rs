//! Remote desktop engine: sessions over several protocols, a host for a single
//! approved peer, and the decisions of the applications around them.
use vstd::prelude::*;

pub mod authentication;
pub mod bitrate;
pub mod bits;
pub mod bytes;
pub mod control_key;
pub mod encoding;
pub mod entries;
pub mod flutter_ffi;
pub mod flutter_input;
pub mod flutter_session;
pub mod flutter_state;
pub mod flutter_surface;
pub mod frontend_laws;
pub mod har;
pub mod host;
pub mod identity;
pub mod input;
pub mod json;
pub mod key_laws;
pub mod message;
pub mod platform;
pub mod program_laws;
pub mod publisher;
pub mod rate_laws;
pub mod rdp;
pub mod session_backend;
pub mod session_laws;
pub mod text;
pub mod text_laws;
pub mod viewer;
pub mod vk;
pub mod vnc;
pub mod windows_host;

verus! {

/// The version that this engine reports to its peers, which gate features on it.
pub const REPORTED_VERSION: &'static str = "1.4.9";

/// The product name that peers and local texts show.
pub const APP_NAME: &'static str = "RustDesk";

} // verus!
