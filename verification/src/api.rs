//! The owner endpoints of the vehicle service: where a request goes, and
//! what an answer means. Sending and reading are the caller's part; what
//! is decided on an answer is decided here.
use vstd::prelude::*;
use vstd::string::*;
use crate::config::ApiConfig;
use crate::error::Error;
use crate::numeral::{decimal, decimal_text};
use crate::records::{Vehicle, VehicleData};
use crate::stream::{
    next_state, output_of, ConnectMessage, ConsumerState, Frame, StreamEvent, StreamOutput,
    CONNECT_RETRY_SECS, RECONNECT_SECS,
};
use crate::token::TokenState;

verus! {

/// The status by which the service refuses a bearer credential.
pub const UNAUTHORIZED: u16 = 401;

/// The profile of the account.
#[derive(Debug, Clone, PartialEq, Eq)]
pub struct UsersMeResponse {
    pub email: String,
    pub full_name: String,
    pub profile_image_url: String,
}

/// A listing as the service answers it: the vehicles, and how many the
/// service says there are.
#[derive(Debug, Clone, PartialEq, Eq)]
pub struct Listing {
    pub response: Vec<Vehicle>,
    pub count: i32,
}

/// A request to an owner endpoint.
#[derive(Debug, Clone, PartialEq, Eq)]
pub struct ApiRequest {
    pub url: String,
    /// The value of the `Authorization` header.
    pub authorization: String,
}

/// What is needed to open the stream of one vehicle.
#[derive(Debug, Clone, PartialEq, Eq)]
pub struct StreamRequest {
    /// The address to connect to.
    pub address: String,
    /// The message to send once connected.
    pub subscribe: ConnectMessage,
}

/// The client of the vehicle service.
#[derive(Debug, Clone, PartialEq, Eq)]
pub struct ApiClient {
    pub conf: ApiConfig,
}

/// What an answer with a body of type `T` means: a refused credential
/// whatever the body holds, else the body or the failure to read it.
pub open spec fn answer<T>(status: u16, parsed: Result<T, Error>) -> Result<T, Error> {
    if status == UNAUTHORIZED {
        Err(Error::Unauthorized)
    } else {
        parsed
    }
}

/// The path of the full state of the vehicle `id`.
pub open spec fn vehicle_data_path_of(id: i64) -> Seq<char> {
    "/api/1/vehicles/"@ + decimal(id as int) + "/vehicle_data"@
}

impl ApiClient {
    /// The client for the service that `conf` names.
    pub fn init(conf: &ApiConfig) -> (client: Self)
        ensures
            client.conf == *conf,
    {
        ApiClient {
            conf: ApiConfig {
                auth_root: conf.auth_root.clone(),
                api_root: conf.api_root.clone(),
                stream_path: conf.stream_path.clone(),
            },
        }
    }

    /// The request for `path`, authorised by the access token held.
    pub fn make_api_request_builder(&self, path: &str, token: &TokenState) -> (req: ApiRequest)
        ensures
            req.url@ == self.conf.api_root@ + path@,
            req.authorization@ == "Bearer "@ + token.token().access_token@,
    {
        let mut url = self.conf.api_root.clone();
        url.append(path);
        let mut authorization = String::from_str("Bearer ");
        authorization.append(token.credential().access_token.as_str());
        ApiRequest { url, authorization }
    }

    /// The path of the full state of the vehicle `id`.
    pub fn vehicle_data_path(id: i64) -> (path: String)
        ensures
            path@ == vehicle_data_path_of(id),
    {
        let mut path = String::from_str("/api/1/vehicles/");
        path.append(decimal_text(id).as_str());
        path.append("/vehicle_data");
        path
    }

    /// Reads the answer to a request for the profile.
    pub fn users_me(status: u16, parsed: Result<UsersMeResponse, Error>) -> (r: Result<
        UsersMeResponse,
        Error,
    >)
        ensures
            r == answer(status, parsed),
    {
        if status == UNAUTHORIZED {
            Err(Error::Unauthorized)
        } else {
            parsed
        }
    }

    /// Reads the answer to a listing. A listing that returns another number
    /// of vehicles than it claims is a fault of the service and is not
    /// used, not even in part.
    pub fn vehicles(status: u16, parsed: Result<Listing, Error>) -> (r: Result<Vec<Vehicle>, Error>)
        ensures
            match answer(status, parsed) {
                Err(e) => r == Err::<Vec<Vehicle>, Error>(e),
                Ok(listing) => if listing.response@.len() == listing.count {
                    r == Ok::<Vec<Vehicle>, Error>(listing.response)
                } else {
                    r == Err::<Vec<Vehicle>, Error>(
                        Error::ListingMismatch {
                            claimed: listing.count,
                            returned: listing.response@.len() as usize,
                        },
                    )
                },
            },
    {
        if status == UNAUTHORIZED {
            return Err(Error::Unauthorized);
        }
        match parsed {
            Err(e) => Err(e),
            Ok(listing) => {
                let returned: usize = listing.response.len();
                if listing.count >= 0 && listing.count as usize == returned {
                    Ok(listing.response)
                } else {
                    Err(Error::ListingMismatch { claimed: listing.count, returned })
                }
            },
        }
    }

    /// Reads the answer to a fetch of the full state. An answer without a
    /// state document means that the vehicle is unavailable.
    pub fn vehicle_data(status: u16, parsed: Result<Option<VehicleData>, Error>) -> (r: Result<
        VehicleData,
        Error,
    >)
        ensures
            match answer(status, parsed) {
                Err(e) => r == Err::<VehicleData, Error>(e),
                Ok(None) => r == Err::<VehicleData, Error>(Error::VehicleUnavailable),
                Ok(Some(d)) => r == Ok::<VehicleData, Error>(d),
            },
    {
        if status == UNAUTHORIZED {
            return Err(Error::Unauthorized);
        }
        match parsed {
            Err(e) => Err(e),
            Ok(None) => Err(Error::VehicleUnavailable),
            Ok(Some(d)) => Ok(d),
        }
    }

    /// The message that subscribes to the stream of `vehicle_id` under the
    /// access token held.
    pub fn make_ws_connect_message(vehicle_id: i64, token: &TokenState) -> (m: ConnectMessage)
        ensures
            m.subscribes(vehicle_id, token.token().access_token@),
    {
        ConnectMessage::subscribe(vehicle_id, token.credential().access_token.as_str())
    }

    /// Prepares the stream of `vehicle_id`: where to connect and what to
    /// send. With a credential that is not valid nothing is prepared, and no
    /// connection is to be attempted.
    pub fn prepare_stream(vehicle_id: i64, token: &TokenState) -> (r: Result<StreamRequest, Error>)
        ensures
            token.token().usable() ==> r is Ok && r.unwrap().address == token.conf().stream_path
                && r.unwrap().subscribe.subscribes(vehicle_id, token.token().access_token@),
            !token.token().usable() ==> r == Err::<StreamRequest, Error>(Error::AccessTokenExpired),
    {
        if !token.is_valid() {
            return Err(Error::AccessTokenExpired);
        }
        Ok(
            StreamRequest {
                address: token.config().stream_path.clone(),
                subscribe: ApiClient::make_ws_connect_message(vehicle_id, token),
            },
        )
    }

    /// Takes one event of the stream in `state`: the next state of the
    /// consumer and what it hands out.
    pub fn stream(state: ConsumerState, event: StreamEvent) -> (r: (ConsumerState, StreamOutput))
        ensures
            r.0 == next_state(state, event),
            r.1 == output_of(state, event),
    {
        match event {
            StreamEvent::Cancelled => (ConsumerState::Terminal, StreamOutput::Nothing),
            StreamEvent::CredentialInvalid => match state {
                ConsumerState::Connecting => (
                    ConsumerState::Backoff { seconds: CONNECT_RETRY_SECS },
                    StreamOutput::Report(Error::AccessTokenExpired),
                ),
                _ => (state, StreamOutput::Nothing),
            },
            StreamEvent::ConnectFailed => match state {
                ConsumerState::Connecting => (
                    ConsumerState::Backoff { seconds: CONNECT_RETRY_SECS },
                    StreamOutput::Nothing,
                ),
                _ => (state, StreamOutput::Nothing),
            },
            StreamEvent::Connected => match state {
                ConsumerState::Connecting => (ConsumerState::Subscribed, StreamOutput::Nothing),
                _ => (state, StreamOutput::Nothing),
            },
            StreamEvent::Frame(frame) => match state {
                ConsumerState::Subscribed => match frame {
                    Frame::Update(d) => (ConsumerState::Subscribed, StreamOutput::Emit(d)),
                    Frame::Fault(fault) => (ConsumerState::Draining, StreamOutput::Report(fault.error())),
                    _ => (ConsumerState::Subscribed, StreamOutput::Nothing),
                },
                _ => (state, StreamOutput::Nothing),
            },
            StreamEvent::Closed => match state {
                ConsumerState::Subscribed => (
                    ConsumerState::Backoff { seconds: RECONNECT_SECS },
                    StreamOutput::Nothing,
                ),
                ConsumerState::Draining => (
                    ConsumerState::Backoff { seconds: RECONNECT_SECS },
                    StreamOutput::Nothing,
                ),
                _ => (state, StreamOutput::Nothing),
            },
            StreamEvent::BackoffElapsed => match state {
                ConsumerState::Backoff { .. } => (ConsumerState::Connecting, StreamOutput::Nothing),
                _ => (state, StreamOutput::Nothing),
            },
        }
    }
}

} // verus!
