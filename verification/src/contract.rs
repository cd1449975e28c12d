//! The data shapes shared by the status client and the status server.

use vstd::prelude::*;

verus! {

/// The text every healthy reply carries.
pub const SERVICE_MESSAGE: &'static str = "Service is running";

/// The version string compiled into this build.
pub const VERSION: &'static str = "0.1.0";

/// Reserved numeric version identifier; no meaning has been assigned to it.
pub const VERSION_CODE: u32 = 0;

/// The address at which the server listens and the client looks for it
/// unless told otherwise: the IPv6 loopback address and a fixed port.
pub const REFERENCE_ADDRESS: &'static str = "[::1]:50051";

/// A status request. It carries no fields.
#[derive(Debug, Clone, Copy, PartialEq, Eq)]
pub struct ZStatusRequest {}

/// A status reply.
#[derive(Debug, Clone, PartialEq, Eq)]
pub struct ZStatusResponse {
    /// Human-readable state of the service.
    pub message: String,
    /// Whole seconds elapsed since the server was constructed.
    pub uptime: u64,
    /// Version of the server build.
    pub version: String,
    /// Reserved numeric version identifier.
    pub version_code: u32,
}

/// The mathematical content of a [`ZStatusResponse`].
pub struct StatusView {
    pub message: Seq<char>,
    pub uptime: nat,
    pub version: Seq<char>,
    pub version_code: nat,
}

impl View for ZStatusResponse {
    type V = StatusView;

    open spec fn view(&self) -> StatusView {
        StatusView {
            message: self.message@,
            uptime: self.uptime as nat,
            version: self.version@,
            version_code: self.version_code as nat,
        }
    }
}

/// The reply of a healthy server that has been up for `uptime` whole seconds.
pub open spec fn running_status(uptime: nat) -> StatusView {
    StatusView {
        message: SERVICE_MESSAGE@,
        uptime,
        version: VERSION@,
        version_code: VERSION_CODE as nat,
    }
}

/// The version in a running server's reply is the version compiled into
/// this build, whatever the uptime.
pub proof fn lemma_version_is_build_version(uptime: nat)
    ensures
        running_status(uptime).version == VERSION@,
{
}

/// The version code in a running server's reply is zero, whatever the
/// uptime.
pub proof fn lemma_version_code_is_zero(uptime: nat)
    ensures
        running_status(uptime).version_code == 0,
{
}

/// The message in a running server's reply is exactly "Service is running":
/// it is never empty and does not vary with the uptime.
pub proof fn lemma_message_is_fixed(uptime: nat, other: nat)
    ensures
        running_status(uptime).message == "Service is running"@,
        running_status(uptime).message.len() == 18,
        running_status(uptime).message == running_status(other).message,
{
    reveal_strlit("Service is running");
}

impl Default for ZStatusResponse {
    /// The reply in which every field was omitted: empty texts and zeros.
    fn default() -> (response: ZStatusResponse)
        ensures
            response@ == (StatusView {
                message: Seq::<char>::empty(),
                uptime: 0,
                version: Seq::<char>::empty(),
                version_code: 0,
            }),
    {
        ZStatusResponse {
            message: String::new(),
            uptime: 0,
            version: String::new(),
            version_code: 0,
        }
    }
}

impl ZStatusResponse {
    /// Builds the reply of a healthy server that has been up for `uptime`
    /// whole seconds.
    pub fn running(uptime: u64) -> (response: ZStatusResponse)
        ensures
            response@ == running_status(uptime as nat),
    {
        ZStatusResponse {
            message: SERVICE_MESSAGE.to_owned(),
            uptime,
            version: VERSION.to_owned(),
            version_code: VERSION_CODE,
        }
    }
}

} // verus!
