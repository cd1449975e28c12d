//! The structured events that the service hands to its diagnostics sink.
//! Format and destination belong to the sink; the service decides which
//! event is due, with which payload and at which severity.

use vstd::prelude::*;

verus! {

/// How loudly an event is reported.
#[derive(Debug, Clone, Copy, PartialEq, Eq, Structural)]
pub enum Severity {
    Info,
    Warn,
}

/// An event for the diagnostics sink.
#[derive(Debug, Clone, PartialEq, Eq)]
pub enum DiagnosticEvent {
    /// The server is about to bind `address`.
    ServerStarting { address: String },
    /// A status request came in from the peer `whom`, where the transport
    /// recorded one.
    RequestReceived { whom: Option<String> },
    /// The interrupt signal arrived while the server was listening.
    ShutdownSignalReceived,
    /// The drain deadline passed with `abandoned` calls still outstanding.
    DrainDeadlineExceeded { abandoned: u64 },
}

/// The mathematical content of a [`DiagnosticEvent`].
pub enum EventView {
    ServerStarting { address: Seq<char> },
    RequestReceived { whom: Option<Seq<char>> },
    ShutdownSignalReceived,
    DrainDeadlineExceeded { abandoned: nat },
}

impl View for DiagnosticEvent {
    type V = EventView;

    open spec fn view(&self) -> EventView {
        match *self {
            DiagnosticEvent::ServerStarting { address } => EventView::ServerStarting {
                address: address@,
            },
            DiagnosticEvent::RequestReceived { whom } => EventView::RequestReceived {
                whom: match whom {
                    Some(text) => Some(text@),
                    None => None,
                },
            },
            DiagnosticEvent::ShutdownSignalReceived => EventView::ShutdownSignalReceived,
            DiagnosticEvent::DrainDeadlineExceeded { abandoned } => {
                EventView::DrainDeadlineExceeded { abandoned: abandoned as nat }
            },
        }
    }
}

/// The severity that belongs to each kind of event: the two events of
/// normal operation are informational, the two of shutdown are warnings.
pub open spec fn severity_of(event: EventView) -> Severity {
    match event {
        EventView::ServerStarting { .. } => Severity::Info,
        EventView::RequestReceived { .. } => Severity::Info,
        EventView::ShutdownSignalReceived => Severity::Warn,
        EventView::DrainDeadlineExceeded { .. } => Severity::Warn,
    }
}

impl DiagnosticEvent {
    /// The severity at which this event is reported.
    pub fn severity(&self) -> (severity: Severity)
        ensures
            severity == severity_of(self@),
    {
        match self {
            DiagnosticEvent::ServerStarting { .. } => Severity::Info,
            DiagnosticEvent::RequestReceived { .. } => Severity::Info,
            DiagnosticEvent::ShutdownSignalReceived => Severity::Warn,
            DiagnosticEvent::DrainDeadlineExceeded { .. } => Severity::Warn,
        }
    }

    /// The event that announces a server about to bind `address`.
    pub fn server_starting(address: &str) -> (event: DiagnosticEvent)
        ensures
            event@ == (EventView::ServerStarting { address: address@ }),
    {
        DiagnosticEvent::ServerStarting { address: address.to_owned() }
    }
}

} // verus!
