//! The envelope and failure types of the RPC transport, as far as the
//! library handles them. Everything in this file is trusted: Verus takes the
//! contracts below as given, and none of them is proved.
//!
//! An envelope is opaque to Verus. What the library needs to know of one is
//! given a name here: the message that a reply carries, the peer that a
//! request records, the text that a failure displays as.

use vstd::prelude::*;
use crate::contract::{StatusView, ZStatusRequest, ZStatusResponse};

verus! {

/// `tonic::Request`, the envelope of an inbound or outbound message.
#[verifier::external_type_specification]
#[verifier::external_body]
#[verifier::reject_recursive_types(T)]
pub struct ExRequest<T>(tonic::Request<T>);

/// `tonic::Response`, the envelope of a reply.
#[verifier::external_type_specification]
#[verifier::external_body]
#[verifier::reject_recursive_types(T)]
pub struct ExResponse<T>(tonic::Response<T>);

/// `tonic::Status`, the explicit failure a server answers with.
#[verifier::external_type_specification]
#[verifier::external_body]
pub struct ExStatus(tonic::Status);

/// `tonic::transport::Error`, a failure of the connection itself.
#[verifier::external_type_specification]
#[verifier::external_body]
pub struct ExTransportError(tonic::transport::Error);

/// `std::io::Error`.
#[verifier::external_type_specification]
#[verifier::external_body]
pub struct ExIoError(std::io::Error);

/// The message that a reply envelope carries.
pub uninterp spec fn response_message(response: tonic::Response<ZStatusResponse>) -> StatusView;

/// The peer address recorded in a request envelope, as text.
pub uninterp spec fn request_peer(request: tonic::Request<ZStatusRequest>) -> Option<Seq<char>>;

/// `tonic::Response::new`: wraps `message` in an envelope with empty
/// metadata. The envelope carries exactly `message`.
#[verifier::external_body]
pub(crate) fn response_new(
    message: ZStatusResponse,
) -> (response: tonic::Response<ZStatusResponse>)
    ensures
        response_message(response) == message@,
{
    tonic::Response::new(message)
}

/// `tonic::Response::into_inner`: hands out the message that the envelope
/// carries.
#[verifier::external_body]
pub(crate) fn response_into_inner(
    response: tonic::Response<ZStatusResponse>,
) -> (message: ZStatusResponse)
    ensures
        message@ == response_message(response),
{
    response.into_inner()
}

/// `tonic::Request::new`: wraps `message` in an envelope with empty metadata
/// and no connection information, so no peer address is recorded in it.
#[verifier::external_body]
pub(crate) fn request_new(message: ZStatusRequest) -> (request: tonic::Request<ZStatusRequest>)
    ensures
        request_peer(request) is None,
{
    tonic::Request::new(message)
}

/// `tonic::Request::remote_addr`: the peer address that the transport
/// recorded for the connection, if any, rendered as text.
#[verifier::external_body]
pub(crate) fn request_remote_addr(
    request: &tonic::Request<ZStatusRequest>,
) -> (whom: Option<String>)
    ensures
        match whom {
            Some(text) => request_peer(*request) == Some(text@),
            None => request_peer(*request) is None,
        },
{
    match request.remote_addr() {
        Some(addr) => Some(addr.to_string()),
        None => None,
    }
}

/// The text that `tonic::transport::Error` displays as.
pub uninterp spec fn transport_error_display(error: tonic::transport::Error) -> Seq<char>;

/// The text that `tonic::Status` displays as.
pub uninterp spec fn status_display(status: tonic::Status) -> Seq<char>;

/// Whether `text` is one of the descriptions that a transport failure
/// displays as: one for each kind of failure.
pub open spec fn is_transport_description(text: Seq<char>) -> bool {
    ||| text == "transport error"@
    ||| text == "invalid URI"@
    ||| text == "user agent is not a valid header value"@
}

/// `Display` of `tonic::transport::Error`: a fixed description of the kind
/// of failure, which depends on the error alone and is one of three.
#[verifier::external_body]
pub(crate) fn transport_error_text(error: &tonic::transport::Error) -> (text: String)
    ensures
        text@ == transport_error_display(*error),
        is_transport_description(text@),
{
    format!("{}", error)
}

/// `Display` of `tonic::Status`: the code, message, details and metadata of
/// the status in one line, which depends on the status alone.
#[verifier::external_body]
pub(crate) fn status_text(status: &tonic::Status) -> (text: String)
    ensures
        text@ == status_display(*status),
{
    format!("{}", status)
}

/// `Display` of `std::io::Error`. For an error of the operating system the
/// text comes from the system, so nothing is promised of it.
#[verifier::external_body]
pub(crate) fn io_error_text(error: &std::io::Error) -> (text: String) {
    format!("{}", error)
}

} // verus!
