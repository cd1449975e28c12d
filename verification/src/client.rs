//! The status client: where it connects to, what it sends, and how it
//! classifies what comes back. The client makes a single attempt; nothing
//! here retries.

use vstd::prelude::*;
use vstd::string::StringExecFns;
use crate::contract::{ZStatusRequest, ZStatusResponse};
use crate::rpc::{
    io_error_text, is_transport_description, request_new, request_peer, response_into_inner,
    response_message, status_display, status_text, transport_error_display,
    transport_error_text,
};

verus! {

/// The scheme that is put in front of a server address.
pub const URI_SCHEME: &'static str = "http://";

/// What precedes the cause in the text of an I/O failure.
pub const IO_FAILURE_PREFIX: &'static str = "Failed to connect to server: ";

/// What precedes the cause in the text of a transport failure.
pub const TRANSPORT_FAILURE_PREFIX: &'static str = "failed to connect to server: ";

/// Why a call did not produce a reply.
#[derive(Debug)]
pub enum ClientError {
    /// The failure lies in the I/O underneath the transport.
    IO(std::io::Error),
    /// The connection could not be set up: the address is malformed or
    /// unreachable, or the handshake failed.
    Transport(tonic::transport::Error),
    /// The server answered with an explicit failure instead of a reply.
    Status(tonic::Status),
}

impl From<std::io::Error> for ClientError {
    fn from(error: std::io::Error) -> (classified: ClientError) {
        ClientError::IO(error)
    }
}

impl vstd::std_specs::convert::FromSpecImpl<std::io::Error> for ClientError {
    open spec fn obeys_from_spec() -> bool {
        true
    }

    open spec fn from_spec(error: std::io::Error) -> ClientError {
        ClientError::IO(error)
    }
}

impl From<tonic::transport::Error> for ClientError {
    fn from(error: tonic::transport::Error) -> (classified: ClientError) {
        ClientError::Transport(error)
    }
}

impl vstd::std_specs::convert::FromSpecImpl<tonic::transport::Error> for ClientError {
    open spec fn obeys_from_spec() -> bool {
        true
    }

    open spec fn from_spec(error: tonic::transport::Error) -> ClientError {
        ClientError::Transport(error)
    }
}

impl From<tonic::Status> for ClientError {
    fn from(status: tonic::Status) -> (classified: ClientError) {
        ClientError::Status(status)
    }
}

impl vstd::std_specs::convert::FromSpecImpl<tonic::Status> for ClientError {
    open spec fn obeys_from_spec() -> bool {
        true
    }

    open spec fn from_spec(status: tonic::Status) -> ClientError {
        ClientError::Status(status)
    }
}

/// Whether `text` is what a failure reads as: the cause behind a remark
/// that the connection failed, where the cause of a transport failure is
/// one of the transport's fixed descriptions; or, for a failure that the
/// server sent, the server's status as it displays.
pub open spec fn describes(error: ClientError, text: Seq<char>) -> bool {
    match error {
        ClientError::IO(_) => exists|cause: Seq<char>| text == IO_FAILURE_PREFIX@ + cause,
        ClientError::Transport(cause) => {
            &&& text == TRANSPORT_FAILURE_PREFIX@ + transport_error_display(cause)
            &&& is_transport_description(transport_error_display(cause))
        },
        ClientError::Status(status) => text == status_display(status),
    }
}

/// The text of an I/O failure with the given cause.
pub fn io_failure_text(cause: &str) -> (text: String)
    ensures
        text@ == IO_FAILURE_PREFIX@ + cause@,
{
    IO_FAILURE_PREFIX.to_owned().concat(cause)
}

/// The text of a transport failure with the given cause.
pub fn transport_failure_text(cause: &str) -> (text: String)
    ensures
        text@ == TRANSPORT_FAILURE_PREFIX@ + cause@,
{
    TRANSPORT_FAILURE_PREFIX.to_owned().concat(cause)
}

impl ClientError {
    /// The failure as one line of text: the cause, preceded by a remark
    /// that the connection failed where it did; a failure that the server
    /// sent reads as the server's status does.
    pub fn message(&self) -> (text: String)
        ensures
            describes(*self, text@),
    {
        match self {
            ClientError::IO(cause) => {
                let detail = io_error_text(cause);
                io_failure_text(detail.as_str())
            },
            ClientError::Transport(cause) => {
                let detail = transport_error_text(cause);
                transport_failure_text(detail.as_str())
            },
            ClientError::Status(status) => status_text(status),
        }
    }
}

/// The URI at which the server listening on `address` is reached.
pub fn endpoint_uri(address: &str) -> (uri: String)
    ensures
        uri@ == URI_SCHEME@ + address@,
{
    URI_SCHEME.to_owned().concat(address)
}

/// What an attempt to connect amounts to, given what the transport handed
/// back: the connection as it stands, or the transport's failure,
/// classified. The attempt is not repeated.
pub fn connection_of<C>(
    outcome: Result<C, tonic::transport::Error>,
) -> (connection: Result<C, ClientError>)
    ensures
        match outcome {
            Ok(channel) => connection == Ok::<C, ClientError>(channel),
            Err(cause) => connection matches Err(error) && error == ClientError::Transport(cause),
        },
{
    match outcome {
        Ok(channel) => Ok(channel),
        Err(cause) => Err(ClientError::from(cause)),
    }
}

/// The request of one status call: the empty message in a fresh envelope,
/// which records no peer.
pub fn status_request() -> (request: tonic::Request<ZStatusRequest>)
    ensures
        request_peer(request) is None,
{
    request_new(ZStatusRequest {  })
}

/// What a call amounts to, given what the transport handed back: the
/// server's reply as it stands, or the server's failure, classified.
pub fn reply_of(
    outcome: Result<tonic::Response<ZStatusResponse>, tonic::Status>,
) -> (reply: Result<ZStatusResponse, ClientError>)
    ensures
        match outcome {
            Ok(response) => reply matches Ok(message) && message@ == response_message(response),
            Err(status) => reply matches Err(error) && error == ClientError::Status(status),
        },
{
    match outcome {
        Ok(response) => Ok(response_into_inner(response)),
        Err(status) => Err(ClientError::from(status)),
    }
}

} // verus!
