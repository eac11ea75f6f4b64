//! What the HarmonyOS application calls.
//!
//! Numbers come from the application as floating point numbers and reach these
//! functions as integers, or as nothing where they are none.
use vstd::prelude::*;
use crate::text;

pub mod capability;
pub mod compat;
pub mod controlled_host;
pub mod engine;
pub mod host_bridge;
pub mod host_laws;
pub mod laws;
pub mod reply_laws;
pub mod session_compat;
pub mod xcomponent;

verus! {

/// What kind of error the application is told.
#[derive(Debug, Clone, Copy, PartialEq, Eq, Structural)]
pub enum BridgeStatus {
    /// Something went wrong.
    GenericFailure,
    /// An argument was wrong.
    InvalidArg,
}

/// An error for the application. Its text holds nothing of the arguments.
#[derive(Debug, Clone, PartialEq, Eq)]
pub struct BridgeError {
    pub status: BridgeStatus,
    pub message: String,
}

/// An error for the application, with its text as a sequence.
pub struct BridgeErrorView {
    pub status: BridgeStatus,
    pub message: Seq<char>,
}

impl View for BridgeError {
    type V = BridgeErrorView;

    open spec fn view(&self) -> BridgeErrorView {
        BridgeErrorView { status: self.status, message: self.message@ }
    }
}

impl BridgeErrorView {
    /// The error as a text: its kind, and what it says where it says something.
    pub open spec fn shown(self) -> Seq<char> {
        let kind = match self.status {
            BridgeStatus::GenericFailure => "GenericFailure"@,
            BridgeStatus::InvalidArg => "InvalidArg"@,
        };
        if self.message.len() > 0 {
            kind + ", "@ + self.message
        } else {
            kind
        }
    }
}

impl BridgeError {
    /// The error as a text.
    pub fn to_string(&self) -> (r: String)
        ensures
            r@ == self@.shown(),
    {
        let kind = match self.status {
            BridgeStatus::GenericFailure => "GenericFailure",
            BridgeStatus::InvalidArg => "InvalidArg",
        };
        if self.message.as_str().is_empty() {
            return kind.to_owned();
        }
        text::joined(text::joined(kind, ", ").as_str(), self.message.as_str())
    }
}

/// Something went wrong.
pub open spec fn failure(message: Seq<char>) -> BridgeErrorView {
    BridgeErrorView { status: BridgeStatus::GenericFailure, message }
}

/// An argument was wrong.
pub open spec fn invalidity(message: Seq<char>) -> BridgeErrorView {
    BridgeErrorView { status: BridgeStatus::InvalidArg, message }
}

/// The error that something went wrong.
pub fn failed(message: &str) -> (r: BridgeError)
    ensures
        r@ == failure(message@),
{
    BridgeError { status: BridgeStatus::GenericFailure, message: message.to_owned() }
}

/// The error that an argument was wrong.
pub fn invalid(message: &str) -> (r: BridgeError)
    ensures
        r@ == invalidity(message@),
{
    BridgeError { status: BridgeStatus::InvalidArg, message: message.to_owned() }
}

/// Whether a number is an integer from `min` to `max`.
pub open spec fn in_range(value: Option<i64>, min: i64, max: i64) -> bool {
    value matches Some(n) && min <= n <= max
}

/// A number that has to be an integer from `min` to `max`.
pub fn integer(value: Option<i64>, min: i64, max: i64) -> (r: Result<i64, BridgeError>)
    ensures
        match r {
            Ok(n) => in_range(value, min, max) && value == Some(n),
            Err(error) => !in_range(value, min, max) && error@ == invalidity(
                "Expected an integer in the supported range"@,
            ),
        },
{
    match value {
        Some(n) => {
            if min <= n && n <= max {
                return Ok(n);
            }
        },
        None => {},
    }
    Err(invalid("Expected an integer in the supported range"))
}

} // verus!
