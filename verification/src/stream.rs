//! The telemetry stream of one vehicle: the subscribe message, the frames
//! that come back, and the life cycle of the connection.
use vstd::prelude::*;
use vstd::string::*;
use crate::error::Error;
use crate::numeral::{decimal, decimal_text, integer_value};
use crate::telemetry::{accepted, canonical, rejection, DecodeError, DrivingState};
use crate::text::{comma, contains_text, has_substring, same_text, split_on};

verus! {

/// Seconds to wait after a failed attempt to connect.
pub const CONNECT_RETRY_SECS: u64 = 60;

/// Seconds to wait before reconnecting after an open stream ended.
pub const RECONNECT_SECS: u64 = 1;

/// The message that subscribes to the telemetry of one vehicle.
#[derive(Debug, Clone, PartialEq, Eq)]
pub struct ConnectMessage {
    pub msg_type: String,
    /// The bearer token.
    pub token: String,
    /// The names of the fields asked for, joined by commas.
    pub value: String,
    /// The vehicle that the subscription is for.
    pub tag: String,
}

/// One frame of the stream, as the service sends it.
#[derive(Debug, Clone, PartialEq, Eq)]
pub struct StreamMessage {
    pub msg_type: String,
    pub tag: Option<String>,
    pub value: Option<String>,
    pub error_type: Option<String>,
}

/// A condition reported by an error frame that ends the connection.
#[derive(Debug, Clone, Copy, PartialEq, Eq, Structural)]
pub enum StreamFault {
    /// The vehicle left the stream.
    VehicleDisconnected,
    VehicleOffline,
    /// The service could not validate the token.
    Unauthorized,
}

/// What a frame means to the consumer.
#[derive(Debug, Clone, PartialEq, Eq)]
pub enum Frame {
    /// A telemetry sample.
    Update(DrivingState),
    /// An update whose payload could not be decoded. The frame is dropped;
    /// the connection stays.
    Malformed(DecodeError),
    /// An error frame that ends the connection.
    Fault(StreamFault),
    /// An error frame that names no condition the consumer knows.
    Unclassified,
    /// The greeting of the service.
    Hello,
    /// A frame of a type that the consumer does not know. Such frames are
    /// never fatal.
    Unknown,
}

/// The text of an optional field.
pub open spec fn text_of(field: Option<String>) -> Option<Seq<char>> {
    match field {
        Some(s) => Some(s@),
        None => None,
    }
}

/// Whether an optional text is there and contains `needle`.
pub open spec fn mentions(value: Option<Seq<char>>, needle: Seq<char>) -> bool {
    value matches Some(v) && has_substring(v, needle)
}

/// The condition that an error frame reports, if it is one that ends the
/// connection.
pub open spec fn fault_of(error_type: Option<Seq<char>>, value: Option<Seq<char>>) -> Option<
    StreamFault,
> {
    match error_type {
        None => None,
        Some(kind) => if kind == "vehicle_disconnected"@ {
            Some(StreamFault::VehicleDisconnected)
        } else if kind == "vehicle_error"@ {
            if mentions(value, "Vehicle is offline"@) {
                Some(StreamFault::VehicleOffline)
            } else {
                None
            }
        } else if kind == "client_error"@ {
            if mentions(value, "Can't validate token."@) || mentions(value, "unauthorized"@) {
                Some(StreamFault::Unauthorized)
            } else {
                None
            }
        } else {
            None
        },
    }
}

impl StreamFault {
    /// The failure that the fault is reported as.
    pub open spec fn error_of(self) -> Error {
        match self {
            StreamFault::VehicleDisconnected => Error::StreamWebSocketClosed,
            StreamFault::VehicleOffline => Error::VehicleOffline,
            StreamFault::Unauthorized => Error::Unauthorized,
        }
    }

    /// The failure that the fault is reported as.
    pub fn error(self) -> (e: Error)
        ensures
            e == self.error_of(),
    {
        match self {
            StreamFault::VehicleDisconnected => Error::StreamWebSocketClosed,
            StreamFault::VehicleOffline => Error::VehicleOffline,
            StreamFault::Unauthorized => Error::Unauthorized,
        }
    }
}

impl ConnectMessage {
    /// The subscription for `vehicle_id` under the bearer token `token`.
    pub open spec fn subscribes(&self, vehicle_id: i64, token: Seq<char>) -> bool {
        &&& self.msg_type@ == "data:subscribe_oauth"@
        &&& self.token@ == token
        &&& self.value@
            == "speed,odometer,soc,elevation,est_heading,est_lat,est_lng,power,shift_state,range,est_range,heading"@
        &&& self.tag@ == decimal(vehicle_id as int)
    }

    /// Makes the subscription for `vehicle_id` under the bearer token
    /// `token`. The field list names the twelve fields that follow the
    /// timestamp in every update, in their order.
    pub fn subscribe(vehicle_id: i64, token: &str) -> (m: ConnectMessage)
        ensures
            m.subscribes(vehicle_id, token@),
    {
        ConnectMessage {
            msg_type: String::from_str("data:subscribe_oauth"),
            token: String::from_str(token),
            value: String::from_str(
                "speed,odometer,soc,elevation,est_heading,est_lat,est_lng,power,shift_state,range,est_range,heading",
            ),
            tag: decimal_text(vehicle_id),
        }
    }
}

/// Whether an optional text is there and contains `needle`.
fn value_mentions(value: &Option<String>, needle: &str) -> (hit: bool)
    ensures
        hit == mentions(text_of(*value), needle@),
{
    match value {
        Some(v) => contains_text(v.as_str(), needle),
        None => false,
    }
}

impl StreamMessage {
    /// What the frame means.
    ///
    /// `data:update` carries a sample, or is malformed where its payload is
    /// missing or is not accepted. `data:error` is a fault where its
    /// `error_type` and `value` name one, and is unclassified otherwise.
    /// `control:hello` is the greeting. Every other type is unknown.
    pub open spec fn meaning(&self, frame: Frame) -> bool {
        if self.msg_type@ == "data:update"@ {
            match self.value {
                None => frame == Frame::Malformed(DecodeError::MissingValue),
                Some(v) => {
                    let raw = split_on(v@, comma());
                    match frame {
                        Frame::Update(d) => accepted(raw) && d.wf() && d.fields() == canonical(raw)
                            && Some(d.timestamp) == integer_value(raw[0]),
                        Frame::Malformed(e) => !accepted(raw) && e == rejection(raw),
                        _ => false,
                    }
                },
            }
        } else if self.msg_type@ == "data:error"@ {
            match fault_of(text_of(self.error_type), text_of(self.value)) {
                Some(fault) => frame == Frame::Fault(fault),
                None => frame == Frame::Unclassified,
            }
        } else if self.msg_type@ == "control:hello"@ {
            frame == Frame::Hello
        } else {
            frame == Frame::Unknown
        }
    }

    /// Classifies the frame and decodes the sample of an update.
    pub fn classify(&self) -> (frame: Frame)
        ensures
            self.meaning(frame),
    {
        let kind = self.msg_type.as_str();
        if same_text(kind, "data:update") {
            match &self.value {
                None => Frame::Malformed(DecodeError::MissingValue),
                Some(v) => match DrivingState::decode(v.as_str()) {
                    Ok(d) => Frame::Update(d),
                    Err(e) => Frame::Malformed(e),
                },
            }
        } else if same_text(kind, "data:error") {
            match &self.error_type {
                None => Frame::Unclassified,
                Some(t) => {
                    let t = t.as_str();
                    if same_text(t, "vehicle_disconnected") {
                        Frame::Fault(StreamFault::VehicleDisconnected)
                    } else if same_text(t, "vehicle_error") {
                        if value_mentions(&self.value, "Vehicle is offline") {
                            Frame::Fault(StreamFault::VehicleOffline)
                        } else {
                            Frame::Unclassified
                        }
                    } else if same_text(t, "client_error") {
                        if value_mentions(&self.value, "Can't validate token.") || value_mentions(
                            &self.value,
                            "unauthorized",
                        ) {
                            Frame::Fault(StreamFault::Unauthorized)
                        } else {
                            Frame::Unclassified
                        }
                    } else {
                        Frame::Unclassified
                    }
                },
            }
        } else if same_text(kind, "control:hello") {
            Frame::Hello
        } else {
            Frame::Unknown
        }
    }
}

/// Where the consumer of one vehicle's stream stands.
#[derive(Debug, Clone, Copy, PartialEq, Eq, Structural)]
pub enum ConsumerState {
    /// About to check the credential and open a connection.
    Connecting,
    /// Connected and subscribed; frames are being read.
    Subscribed,
    /// A fault was reported; the connection is being closed.
    Draining,
    /// Waiting for `seconds` before the next attempt.
    Backoff { seconds: u64 },
    /// Cancelled: the connection is closed and is not opened again.
    Terminal,
}

/// What happened to the consumer.
#[derive(Debug, Clone, PartialEq, Eq)]
pub enum StreamEvent {
    /// The credential was not valid when a connection was to be opened.
    CredentialInvalid,
    /// The connection is open and the subscription was sent.
    Connected,
    /// The connection could not be opened, or the subscription not sent.
    ConnectFailed,
    /// A frame was read.
    Frame(Frame),
    /// The transport closed the connection, for whatever reason.
    Closed,
    /// The wait is over.
    BackoffElapsed,
    /// The supervisor cancelled the unit.
    Cancelled,
}

/// What the consumer hands out on an event.
#[derive(Debug, Clone, PartialEq, Eq)]
pub enum StreamOutput {
    Nothing,
    /// A sample for the accumulator.
    Emit(DrivingState),
    /// A failure for the supervisor or the credential layer.
    Report(Error),
}

/// The state after `event`.
///
/// Cancellation ends every state, and nothing leaves `Terminal`. A failed
/// attempt waits a minute, an ended stream a second. A fault drains the
/// connection first. Every other frame leaves the subscription as it is,
/// and an event that does not belong to a state is ignored.
pub open spec fn next_state(state: ConsumerState, event: StreamEvent) -> ConsumerState {
    match (state, event) {
        (_, StreamEvent::Cancelled) => ConsumerState::Terminal,
        (ConsumerState::Terminal, _) => ConsumerState::Terminal,
        (ConsumerState::Connecting, StreamEvent::CredentialInvalid) => ConsumerState::Backoff {
            seconds: CONNECT_RETRY_SECS,
        },
        (ConsumerState::Connecting, StreamEvent::ConnectFailed) => ConsumerState::Backoff {
            seconds: CONNECT_RETRY_SECS,
        },
        (ConsumerState::Connecting, StreamEvent::Connected) => ConsumerState::Subscribed,
        (ConsumerState::Subscribed, StreamEvent::Frame(Frame::Fault(_))) => ConsumerState::Draining,
        (ConsumerState::Subscribed, StreamEvent::Closed) => ConsumerState::Backoff {
            seconds: RECONNECT_SECS,
        },
        (ConsumerState::Draining, StreamEvent::Closed) => ConsumerState::Backoff {
            seconds: RECONNECT_SECS,
        },
        (ConsumerState::Backoff { .. }, StreamEvent::BackoffElapsed) => ConsumerState::Connecting,
        (unchanged, _) => unchanged,
    }
}

/// What `event` hands out in `state`: the sample of an update that arrives
/// on a subscription, the failure of a fault that arrives on one, and the
/// expired credential found when connecting; nothing otherwise.
pub open spec fn output_of(state: ConsumerState, event: StreamEvent) -> StreamOutput {
    match (state, event) {
        (ConsumerState::Subscribed, StreamEvent::Frame(Frame::Update(d))) => StreamOutput::Emit(d),
        (ConsumerState::Subscribed, StreamEvent::Frame(Frame::Fault(fault))) => StreamOutput::Report(
            fault.error_of(),
        ),
        (ConsumerState::Connecting, StreamEvent::CredentialInvalid) => StreamOutput::Report(
            Error::AccessTokenExpired,
        ),
        _ => StreamOutput::Nothing,
    }
}

/// The state after a run of events.
pub open spec fn run(state: ConsumerState, events: Seq<StreamEvent>) -> ConsumerState
    decreases events.len(),
{
    if events.len() == 0 {
        state
    } else {
        run(next_state(state, events[0]), events.skip(1))
    }
}

/// Once cancelled, the consumer stays cancelled whatever happens, so it
/// never attempts to connect again. Cancelling twice is cancelling once.
pub proof fn lemma_cancel_is_final(state: ConsumerState, later: Seq<StreamEvent>)
    ensures
        run(next_state(state, StreamEvent::Cancelled), later) == ConsumerState::Terminal,
    decreases later.len(),
{
    if later.len() > 0 {
        lemma_cancel_is_final(ConsumerState::Terminal, later.skip(1));
    }
}

/// A cancelled consumer hands nothing out.
pub proof fn lemma_terminal_is_silent(event: StreamEvent)
    ensures
        output_of(ConsumerState::Terminal, event) == StreamOutput::Nothing,
{
}

/// Nothing but cancellation ends the consumer: no frame, no failure and no
/// closure is fatal.
pub proof fn lemma_only_cancel_ends(state: ConsumerState, event: StreamEvent)
    requires
        state != ConsumerState::Terminal,
        event != StreamEvent::Cancelled,
    ensures
        next_state(state, event) != ConsumerState::Terminal,
{
}

/// The consumer comes to connect only by waiting: no state but `Backoff`
/// leads to `Connecting`, and only once the wait is over.
pub proof fn lemma_connects_after_wait(state: ConsumerState, event: StreamEvent)
    requires
        state != ConsumerState::Connecting,
        next_state(state, event) == ConsumerState::Connecting,
    ensures
        state is Backoff,
        event == StreamEvent::BackoffElapsed,
{
}

/// A frame ends a subscription only if it is a fault; a malformed, an
/// unclassified or an unknown frame leaves it as it is.
pub proof fn lemma_frames_keep_subscription(frame: Frame)
    ensures
        next_state(ConsumerState::Subscribed, StreamEvent::Frame(frame)) == (if frame is Fault {
            ConsumerState::Draining
        } else {
            ConsumerState::Subscribed
        }),
{
}

/// However a subscription ends, the consumer is connecting again after the
/// closure and one wait of a second; after a failed attempt it is
/// connecting again after one wait of a minute.
pub proof fn lemma_reconnects(fault: StreamFault)
    ensures
        run(ConsumerState::Subscribed, seq![StreamEvent::Closed, StreamEvent::BackoffElapsed])
            == ConsumerState::Connecting,
        run(
            ConsumerState::Subscribed,
            seq![
                StreamEvent::Frame(Frame::Fault(fault)),
                StreamEvent::Closed,
                StreamEvent::BackoffElapsed,
            ],
        ) == ConsumerState::Connecting,
        run(ConsumerState::Connecting, seq![StreamEvent::ConnectFailed, StreamEvent::BackoffElapsed])
            == ConsumerState::Connecting,
        next_state(ConsumerState::Subscribed, StreamEvent::Closed) == (ConsumerState::Backoff {
            seconds: 1,
        }),
        next_state(ConsumerState::Connecting, StreamEvent::ConnectFailed) == (ConsumerState::Backoff {
            seconds: 60,
        }),
{
    reveal_with_fuel(run, 4);
}

} // verus!
