//! The status server's request handling: the start time it records once,
//! and the reply it computes from that and the current time.

use vstd::prelude::*;
use crate::clock::{whole_seconds_between, MonotonicClock, Timestamp};
use crate::contract::{running_status, ZStatusRequest, ZStatusResponse};
use crate::diagnostics::{DiagnosticEvent, EventView};
use crate::rpc::{request_peer, request_remote_addr, response_message, response_new};

verus! {

/// What the server remembers between calls: the moment it was constructed.
/// No method changes it, so concurrent calls may share it freely.
#[derive(Debug, Clone, Copy)]
pub struct ServerState {
    started_at: Timestamp,
}

impl ServerState {
    /// The start time, in nanoseconds on the clock's timeline.
    pub closed spec fn started_at(&self) -> nat {
        self.started_at@
    }

    /// The state of a server constructed at `started_at`.
    pub fn new(started_at: Timestamp) -> (state: ServerState)
        ensures
            state.started_at() == started_at@,
    {
        ServerState { started_at }
    }

    /// The moment the server was constructed.
    pub fn started(&self) -> (started_at: Timestamp)
        ensures
            started_at@ == self.started_at(),
    {
        self.started_at
    }

    /// Whole seconds the server has been up at `now`.
    pub fn uptime(&self, now: &Timestamp) -> (secs: u64)
        ensures
            secs == whole_seconds_between(self.started_at(), now@),
    {
        now.whole_seconds_since(&self.started_at)
    }

    /// The reply to a status request that is answered at `now`.
    pub fn status(&self, now: &Timestamp) -> (response: ZStatusResponse)
        ensures
            response@ == running_status(whole_seconds_between(self.started_at(), now@)),
    {
        ZStatusResponse::running(self.uptime(now))
    }

    /// Answers `request` at `now`: records that a request came in, with the
    /// caller's address, and wraps the reply for the transport. It never
    /// fails.
    pub fn answer(
        &self,
        request: tonic::Request<ZStatusRequest>,
        now: &Timestamp,
        sink: &mut Vec<DiagnosticEvent>,
    ) -> (reply: Result<tonic::Response<ZStatusResponse>, tonic::Status>)
        ensures
            reply matches Ok(response) && response_message(response) == running_status(
                whole_seconds_between(self.started_at(), now@),
            ),
            final(sink)@.len() == old(sink)@.len() + 1,
            final(sink)@.drop_last() == old(sink)@,
            final(sink)@.last()@ == (EventView::RequestReceived { whom: request_peer(request) }),
    {
        let response = self.status(now);
        let whom = request_remote_addr(&request);
        sink.push(DiagnosticEvent::RequestReceived { whom });
        Ok(response_new(response))
    }
}

/// The status service: a clock that starts when the service is constructed,
/// and the state that records the start on that clock's timeline.
#[derive(Debug, Clone, Copy)]
pub struct MyStatusService {
    clock: MonotonicClock,
    state: ServerState,
}

impl Default for MyStatusService {
    /// Constructs the service at the present moment: its clock starts now,
    /// and the start it records is the origin of that clock. So the start
    /// is captured once, and the uptime at any later moment is the time the
    /// clock shows then.
    fn default() -> (service: MyStatusService)
        ensures
            service.state().started_at() == 0,
    {
        MyStatusService {
            clock: MonotonicClock::start(),
            state: ServerState::new(Timestamp::origin()),
        }
    }
}

impl MyStatusService {
    /// The state recorded at construction.
    pub closed spec fn state(&self) -> ServerState {
        self.state
    }

    /// The state recorded at construction.
    pub fn server_state(&self) -> (state: ServerState)
        ensures
            state == self.state(),
    {
        self.state
    }

    /// Answers `request` at the present moment. Whatever the service's
    /// clock shows, the reply is the one that the recorded state gives at
    /// some reading, and one event is recorded for the request.
    pub fn get_status(
        &self,
        request: tonic::Request<ZStatusRequest>,
        sink: &mut Vec<DiagnosticEvent>,
    ) -> (reply: Result<tonic::Response<ZStatusResponse>, tonic::Status>)
        ensures
            reply matches Ok(response) && exists|now: nat|
                response_message(response) == running_status(
                    #[trigger] whole_seconds_between(self.state().started_at(), now),
                ),
            final(sink)@.len() == old(sink)@.len() + 1,
            final(sink)@.drop_last() == old(sink)@,
            final(sink)@.last()@ == (EventView::RequestReceived { whom: request_peer(request) }),
    {
        let now = self.clock.now();
        let reply = self.state.answer(request, &now, sink);
        assert(reply matches Ok(response) && response_message(response) == running_status(
            whole_seconds_between(self.state().started_at(), now@),
        ));
        reply
    }
}

} // verus!
