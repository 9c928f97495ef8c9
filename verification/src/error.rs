//! What can go wrong between the monitor and the vehicle service.
use vstd::prelude::*;

verus! {

/// A failure of the vehicle service, of the stream, or of the credential.
///
/// Failures of the transport carry the message of the layer that reported
/// them; the monitor never looks inside.
#[derive(Debug, Clone, PartialEq, Eq)]
pub enum Error {
    /// An HTTP request failed before an answer could be read.
    ReqwestError(String),
    EmptyTeslaAuthSid,
    /// The service refused the bearer credential.
    Unauthorized,
    /// The service answered without a state document.
    VehicleUnavailable,
    /// The stream reported that the vehicle is offline.
    VehicleOffline,
    /// The stream was closed by the transport or by the vehicle.
    StreamWebSocketClosed,
    InvalidEmail,
    InvalidPassword,
    LocalChannelClosed,
    AuthFailed(String),
    /// The stream transport failed.
    WsErr(String),
    /// The credential held when a stream was about to be opened was not
    /// valid.
    AccessTokenExpired,
    /// An answer could not be read as the document it should be.
    SerdeJsonErr(String),
    /// A listing claimed another number of vehicles than it returned.
    ListingMismatch { claimed: i32, returned: usize },
}

/// The classes by which failures are handled.
#[derive(Debug, Clone, Copy, PartialEq, Eq, Structural)]
pub enum ErrorClass {
    /// Connection closed or timed out: retried after a wait.
    Transport,
    /// The credential is expired or invalid: handed to the credential layer.
    Authorization,
    /// The vehicle is offline or unavailable: recorded, polling goes on.
    EntityState,
    /// A frame, an answer or a stored record is malformed: that item is
    /// dropped.
    Decode,
    /// The local log or the remote store could not be written or read: the
    /// record is kept for the next cycle.
    Persistence,
    /// The sign-in handshake failed; it happens before monitoring starts.
    Fatal,
}

impl Error {
    /// The class of the failure.
    pub open spec fn class_of(self) -> ErrorClass {
        match self {
            Error::ReqwestError(_) => ErrorClass::Transport,
            Error::StreamWebSocketClosed => ErrorClass::Transport,
            Error::WsErr(_) => ErrorClass::Transport,
            Error::LocalChannelClosed => ErrorClass::Transport,
            Error::Unauthorized => ErrorClass::Authorization,
            Error::AccessTokenExpired => ErrorClass::Authorization,
            Error::VehicleUnavailable => ErrorClass::EntityState,
            Error::VehicleOffline => ErrorClass::EntityState,
            Error::SerdeJsonErr(_) => ErrorClass::Decode,
            Error::ListingMismatch { .. } => ErrorClass::Decode,
            Error::EmptyTeslaAuthSid => ErrorClass::Fatal,
            Error::InvalidEmail => ErrorClass::Fatal,
            Error::InvalidPassword => ErrorClass::Fatal,
            Error::AuthFailed(_) => ErrorClass::Fatal,
        }
    }

    /// The class of the failure.
    pub fn class(&self) -> (c: ErrorClass)
        ensures
            c == self.class_of(),
    {
        match self {
            Error::ReqwestError(_) => ErrorClass::Transport,
            Error::StreamWebSocketClosed => ErrorClass::Transport,
            Error::WsErr(_) => ErrorClass::Transport,
            Error::LocalChannelClosed => ErrorClass::Transport,
            Error::Unauthorized => ErrorClass::Authorization,
            Error::AccessTokenExpired => ErrorClass::Authorization,
            Error::VehicleUnavailable => ErrorClass::EntityState,
            Error::VehicleOffline => ErrorClass::EntityState,
            Error::SerdeJsonErr(_) => ErrorClass::Decode,
            Error::ListingMismatch { .. } => ErrorClass::Decode,
            Error::EmptyTeslaAuthSid => ErrorClass::Fatal,
            Error::InvalidEmail => ErrorClass::Fatal,
            Error::InvalidPassword => ErrorClass::Fatal,
            Error::AuthFailed(_) => ErrorClass::Fatal,
        }
    }
}

} // verus!
