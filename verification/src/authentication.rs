//! What a host may grant, and by which means.
use vstd::prelude::*;

verus! {

/// What a peer may do.
#[derive(Debug, Clone, Copy, PartialEq, Eq, Structural)]
pub struct Permissions {
    pub keyboard: bool,
    pub clipboard: bool,
    pub audio: bool,
    pub file: bool,
}

impl Permissions {
    /// Nothing at all.
    pub open spec fn nothing() -> Permissions {
        Permissions { keyboard: false, clipboard: false, audio: false, file: false }
    }
}

impl Default for Permissions {
    fn default() -> (r: Permissions)
        ensures
            r == Permissions::nothing(),
    {
        Permissions { keyboard: false, clipboard: false, audio: false, file: false }
    }
}

/// How an operator lets peers in.
#[derive(Debug, Clone, Copy, PartialEq, Eq, Structural)]
pub enum ApproveMode {
    Password,
    Click,
    Both,
}

/// What a host asks of a peer.
#[derive(Debug, Clone, Copy, PartialEq, Eq, Structural)]
pub enum PrimaryPolicy {
    PasswordOnly,
    ClickOnly,
    PasswordOrClick,
}

/// What the operator decided about a request.
#[derive(Debug, Clone, Copy, PartialEq, Eq, Structural)]
pub enum Approval {
    Pending,
    Approved(Permissions),
    Denied,
}

} // verus!
