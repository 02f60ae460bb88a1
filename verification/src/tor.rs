//! The onion-routed transport: what to do next, given what the overlay
//! provider reported.
//!
//! Dialing and listening both go through one overlay client per process.
//! The client is bootstrapped by the first operation that needs it and
//! reused by every later one.  The provider's own failures are reported
//! with a generic kind and a fixed text; the details stay in the log.

use crate::address::{Address, AddressView};
use crate::error::{Error, IoErrorKind};
use vstd::prelude::*;

verus! {

/// Why an operation of the overlay transport failed.  The provider's own
/// failures share one generic kind and differ in where they happened.
#[derive(Clone, Copy, Debug, PartialEq, Eq, Structural)]
pub enum TransportFailure {
    /// The client could not be bootstrapped; the report is in the log.
    Bootstrap,
    /// The connect attempt failed; the report is in the log.
    Dial,
    /// The configuration of the onion service could not be built.
    Configure,
    /// The onion service could not be launched.
    Launch,
    /// A stream request could not be accepted.
    Accept,
    /// The timer ran out before the connect attempt ended.
    TimedOut,
    /// An incoming request was refused, or the source of requests ran dry.
    Aborted,
}

impl TransportFailure {
    /// The kind under which the failure is reported.
    pub open spec fn kind_of(self) -> IoErrorKind {
        match self {
            TransportFailure::TimedOut => IoErrorKind::TimedOut,
            TransportFailure::Aborted => IoErrorKind::ConnectionAborted,
            _ => IoErrorKind::Other,
        }
    }

    /// The kind under which the failure is reported.
    pub fn kind(&self) -> (r: IoErrorKind)
        ensures
            r == self.kind_of(),
    {
        match self {
            TransportFailure::TimedOut => IoErrorKind::TimedOut,
            TransportFailure::Aborted => IoErrorKind::ConnectionAborted,
            _ => IoErrorKind::Other,
        }
    }

    /// The failure as an error of this layer: an I/O error of its kind.
    pub fn to_error(&self) -> (r: Error)
        ensures
            r == Error::Io(self.kind_of()),
    {
        Error::Io(self.kind())
    }

    /// The text that goes with the failure.
    pub fn message(&self) -> (r: &'static str)
        ensures
            r@ == match *self {
                TransportFailure::Bootstrap => "Internal Tor error, see logged warning"@,
                TransportFailure::Dial => "Internal Tor error, see logged warning"@,
                TransportFailure::Configure => "Internal Tor error"@,
                TransportFailure::Launch => "Internal Tor error"@,
                TransportFailure::Accept => "Internal Tor error"@,
                TransportFailure::TimedOut => "timed out"@,
                TransportFailure::Aborted => "Connection Aborted"@,
            },
    {
        match self {
            TransportFailure::Bootstrap => "Internal Tor error, see logged warning",
            TransportFailure::Dial => "Internal Tor error, see logged warning",
            TransportFailure::Configure => "Internal Tor error",
            TransportFailure::Launch => "Internal Tor error",
            TransportFailure::Accept => "Internal Tor error",
            TransportFailure::TimedOut => "timed out",
            TransportFailure::Aborted => "Connection Aborted",
        }
    }
}

/// The state of the overlay client that a process shares: whether it has
/// been bootstrapped.  Once it is ready it stays ready.
#[derive(Clone, Copy, Debug, PartialEq, Eq, Structural)]
pub struct TorProvider {
    pub ready: bool,
}

impl TorProvider {
    /// The provider of a process that has not used the overlay yet.
    pub fn new() -> (r: TorProvider)
        ensures
            !r.ready,
    {
        TorProvider { ready: false }
    }
}

/// How the connect attempt of a dial is to be made; host and port are the
/// caller's.
#[derive(Clone, Copy, Debug, PartialEq, Eq, Structural)]
pub struct ConnectPrefs {
    /// Whether names of onion services are to be resolved as such: always.
    pub connect_to_onion_services: bool,
    /// The timer that the attempt races against, in seconds, if any.
    pub timer: Option<u64>,
}

/// What happened during a dial.
#[derive(Clone, Copy, Debug, PartialEq, Eq, Structural)]
pub enum DialEvent {
    /// The dial begins.
    Begin,
    /// The client was bootstrapped.
    Bootstrapped,
    /// Bootstrapping failed.
    BootstrapFailed,
    /// The connect attempt gave a stream.
    Connected,
    /// The connect attempt failed.
    ConnectFailed,
    /// The timer ran out first.
    TimerElapsed,
}

/// What a dial does next.
#[derive(Clone, Copy, Debug)]
pub enum DialAction {
    /// Bootstrap the client, then report `Bootstrapped` or
    /// `BootstrapFailed`.
    Bootstrap,
    /// Connect, racing the timer where there is one; abandon whichever
    /// loses.
    Connect(ConnectPrefs),
    /// The dial is over.
    Finish(Result<(), TransportFailure>),
}

/// What a dial does on `event`, and what becomes of the provider.
pub open spec fn dial_step(provider: TorProvider, conn_timeout: Option<u64>, event: DialEvent) -> (
    TorProvider,
    DialAction,
) {
    let connect = DialAction::Connect(
        ConnectPrefs { connect_to_onion_services: true, timer: conn_timeout },
    );
    match event {
        DialEvent::Begin => if provider.ready {
            (provider, connect)
        } else {
            (provider, DialAction::Bootstrap)
        },
        DialEvent::Bootstrapped => (TorProvider { ready: true }, connect),
        DialEvent::BootstrapFailed => (
            provider,
            DialAction::Finish(Err(TransportFailure::Bootstrap)),
        ),
        DialEvent::Connected => (provider, DialAction::Finish(Ok(()))),
        DialEvent::ConnectFailed => (provider, DialAction::Finish(Err(TransportFailure::Dial))),
        DialEvent::TimerElapsed => (provider, DialAction::Finish(Err(TransportFailure::TimedOut))),
    }
}

/// The client is bootstrapped once: a provider that is ready stays ready
/// whatever happens, and no dial or listen that begins on it bootstraps
/// again.
pub proof fn lemma_bootstrap_once(
    provider: TorProvider,
    port: u16,
    conn_timeout: Option<u64>,
    dial: DialEvent,
    listen: ListenEvent,
)
    requires
        provider.ready,
    ensures
        dial_step(provider, conn_timeout, dial).0.ready,
        listen_step(provider, port, listen).0.ready,
        dial_step(provider, conn_timeout, DialEvent::Begin).1 != DialAction::Bootstrap,
        listen_step(provider, port, ListenEvent::Begin).1 != ListenAction::Bootstrap,
{
}

/// The ways in which a dial can fail are told apart: a failed bootstrap, a
/// failed connect and a timeout each give their own failure, and only the
/// timeout is reported as one.
pub proof fn lemma_dial_failures_distinct(provider: TorProvider, conn_timeout: Option<u64>)
    ensures
        dial_step(provider, conn_timeout, DialEvent::BootstrapFailed).1 == DialAction::Finish(
            Err(TransportFailure::Bootstrap),
        ),
        dial_step(provider, conn_timeout, DialEvent::ConnectFailed).1 == DialAction::Finish(
            Err(TransportFailure::Dial),
        ),
        dial_step(provider, conn_timeout, DialEvent::TimerElapsed).1 == DialAction::Finish(
            Err(TransportFailure::TimedOut),
        ),
        TransportFailure::Bootstrap.kind_of() == IoErrorKind::Other,
        TransportFailure::Dial.kind_of() == IoErrorKind::Other,
        TransportFailure::TimedOut.kind_of() == IoErrorKind::TimedOut,
{
}

/// A stream request is accepted only if it asks to open a stream to the
/// listener's own port; every other request ends the wait with an aborted
/// connection.
pub proof fn lemma_port_is_validated(port: u16, kind: StreamRequestKind)
    ensures
        accept_step(port, AcceptEvent::StreamRequest(kind)) == if request_allowed(port, kind) {
            AcceptActionView::AcceptStream
        } else {
            AcceptActionView::Finish(Err(TransportFailure::Aborted))
        },
{
}

/// Dials through the overlay.
#[derive(Clone, Copy, Debug)]
pub struct TorDialer;

impl TorDialer {
    /// A dialer.  Making one never fails.
    pub fn new() -> (r: Result<TorDialer, TransportFailure>)
        ensures
            r == Ok::<TorDialer, TransportFailure>(TorDialer),
    {
        Ok(TorDialer {  })
    }

    /// What a dial under the timeout `conn_timeout` does on `event`.  See
    /// `dial_step`.
    pub fn do_dial(
        &self,
        provider: &mut TorProvider,
        conn_timeout: Option<u64>,
        event: DialEvent,
    ) -> (action: DialAction)
        ensures
            (*final(provider), action) == dial_step(*old(provider), conn_timeout, event),
    {
        let connect = DialAction::Connect(
            ConnectPrefs { connect_to_onion_services: true, timer: conn_timeout },
        );
        match event {
            DialEvent::Begin => {
                if provider.ready {
                    connect
                } else {
                    DialAction::Bootstrap
                }
            },
            DialEvent::Bootstrapped => {
                provider.ready = true;
                connect
            },
            DialEvent::BootstrapFailed => DialAction::Finish(Err(TransportFailure::Bootstrap)),
            DialEvent::Connected => DialAction::Finish(Ok(())),
            DialEvent::ConnectFailed => DialAction::Finish(Err(TransportFailure::Dial)),
            DialEvent::TimerElapsed => DialAction::Finish(Err(TransportFailure::TimedOut)),
        }
    }
}

/// What happened while a listener was set up.
#[derive(Clone, Copy, Debug, PartialEq, Eq, Structural)]
pub enum ListenEvent {
    /// Listening begins.
    Begin,
    /// The client was bootstrapped.
    Bootstrapped,
    /// Bootstrapping failed.
    BootstrapFailed,
    /// The configuration of the onion service could not be built.
    ConfigFailed,
    /// The onion service could not be launched.
    LaunchFailed,
    /// The onion service runs.
    Launched,
}

/// What setting up a listener does next.
#[derive(Clone, Copy, Debug)]
pub enum ListenAction {
    /// Bootstrap the client, then report `Bootstrapped` or
    /// `BootstrapFailed`.
    Bootstrap,
    /// Launch the onion service under the service nickname.
    Launch,
    /// Setting up is over: a listener for the port, or a failure.
    Finish(Result<TorListenerIntern, TransportFailure>),
}

/// What setting up a listener on `port` does on `event`, and what becomes
/// of the provider.
pub open spec fn listen_step(provider: TorProvider, port: u16, event: ListenEvent) -> (
    TorProvider,
    ListenAction,
) {
    match event {
        ListenEvent::Begin => if provider.ready {
            (provider, ListenAction::Launch)
        } else {
            (provider, ListenAction::Bootstrap)
        },
        ListenEvent::Bootstrapped => (TorProvider { ready: true }, ListenAction::Launch),
        ListenEvent::BootstrapFailed => (
            provider,
            ListenAction::Finish(Err(TransportFailure::Bootstrap)),
        ),
        ListenEvent::ConfigFailed => (
            provider,
            ListenAction::Finish(Err(TransportFailure::Configure)),
        ),
        ListenEvent::LaunchFailed => (
            provider,
            ListenAction::Finish(Err(TransportFailure::Launch)),
        ),
        ListenEvent::Launched => (provider, ListenAction::Finish(Ok(TorListenerIntern { port }))),
    }
}

/// Listens on the overlay.
#[derive(Clone, Copy, Debug)]
pub struct TorListener;

impl TorListener {
    /// A listener.  Making one never fails.
    pub fn new() -> (r: Result<TorListener, TransportFailure>)
        ensures
            r == Ok::<TorListener, TransportFailure>(TorListener),
    {
        Ok(TorListener {  })
    }

    /// The nickname under which the onion service is launched.
    pub fn nickname() -> (r: &'static str)
        ensures
            r@ == "darkfi_tor"@,
    {
        "darkfi_tor"
    }

    /// What setting up a listener on `port` does on `event`.  See
    /// `listen_step`.
    pub fn do_listen(
        &self,
        provider: &mut TorProvider,
        port: u16,
        event: ListenEvent,
    ) -> (action: ListenAction)
        ensures
            (*final(provider), action) == listen_step(*old(provider), port, event),
    {
        match event {
            ListenEvent::Begin => {
                if provider.ready {
                    ListenAction::Launch
                } else {
                    ListenAction::Bootstrap
                }
            },
            ListenEvent::Bootstrapped => {
                provider.ready = true;
                ListenAction::Launch
            },
            ListenEvent::BootstrapFailed => ListenAction::Finish(Err(TransportFailure::Bootstrap)),
            ListenEvent::ConfigFailed => ListenAction::Finish(Err(TransportFailure::Configure)),
            ListenEvent::LaunchFailed => ListenAction::Finish(Err(TransportFailure::Launch)),
            ListenEvent::Launched => ListenAction::Finish(Ok(TorListenerIntern { port })),
        }
    }
}

/// What an incoming stream request asks for.
#[derive(Clone, Copy, Debug, PartialEq, Eq, Structural)]
pub enum StreamRequestKind {
    /// Open a stream to `port`.
    Begin { port: u16 },
    /// Anything else.
    Other,
}

/// What happened while a listener waited for its next connection.
#[derive(Clone, Copy, Debug, PartialEq, Eq, Structural)]
pub enum AcceptEvent {
    /// A rendezvous request arrived.
    Rendezvous,
    /// The source of rendezvous requests ran dry.
    NoRendezvous,
    /// The rendezvous request was accepted.
    RendezvousAccepted,
    /// Accepting the rendezvous request failed.
    RendezvousFailed,
    /// A stream request arrived on the rendezvous.
    StreamRequest(StreamRequestKind),
    /// The rendezvous gave no stream request.
    NoStreamRequest,
    /// The stream request was accepted and a stream is open.
    StreamAccepted,
    /// Accepting the stream request failed.
    StreamFailed,
}

/// What a waiting listener does next.
#[derive(Debug)]
pub enum AcceptAction {
    /// Accept the rendezvous request.
    AcceptRendezvous,
    /// Wait for the first stream request of the rendezvous.
    AwaitStreamRequest,
    /// Accept the stream request with an empty reply.
    AcceptStream,
    /// Waiting is over: the address under which the new stream is known, or
    /// a failure.
    Finish(Result<Address, TransportFailure>),
}

/// A waiting listener's next action, as a mathematical value.
pub enum AcceptActionView {
    AcceptRendezvous,
    AwaitStreamRequest,
    AcceptStream,
    Finish(Result<AddressView, TransportFailure>),
}

impl View for AcceptAction {
    type V = AcceptActionView;

    open spec fn view(&self) -> AcceptActionView {
        match self {
            AcceptAction::AcceptRendezvous => AcceptActionView::AcceptRendezvous,
            AcceptAction::AwaitStreamRequest => AcceptActionView::AwaitStreamRequest,
            AcceptAction::AcceptStream => AcceptActionView::AcceptStream,
            AcceptAction::Finish(r) => AcceptActionView::Finish(
                match r {
                    Ok(a) => Ok(a@),
                    Err(e) => Err(*e),
                },
            ),
        }
    }
}

/// Whether a stream request is one that a listener on `port` accepts: a
/// request to open a stream to exactly that port.
pub open spec fn request_allowed(port: u16, kind: StreamRequestKind) -> bool {
    kind == (StreamRequestKind::Begin { port })
}

/// The address under which a stream accepted on `port` is known.
pub open spec fn accepted_address(port: u16) -> AddressView {
    AddressView { scheme: "tor"@, host: Some("127.0.0.1"@), port: Some(port) }
}

/// What a listener on `port` does on `event`.  A request for another port
/// or of another kind is refused as an aborted connection, like a source
/// that ran dry; it is never passed over in silence.
pub open spec fn accept_step(port: u16, event: AcceptEvent) -> AcceptActionView {
    match event {
        AcceptEvent::Rendezvous => AcceptActionView::AcceptRendezvous,
        AcceptEvent::NoRendezvous => AcceptActionView::Finish(Err(TransportFailure::Aborted)),
        AcceptEvent::RendezvousAccepted => AcceptActionView::AwaitStreamRequest,
        AcceptEvent::RendezvousFailed => AcceptActionView::Finish(Err(TransportFailure::Aborted)),
        AcceptEvent::StreamRequest(kind) => if request_allowed(port, kind) {
            AcceptActionView::AcceptStream
        } else {
            AcceptActionView::Finish(Err(TransportFailure::Aborted))
        },
        AcceptEvent::NoStreamRequest => AcceptActionView::Finish(Err(TransportFailure::Aborted)),
        AcceptEvent::StreamAccepted => AcceptActionView::Finish(Ok(accepted_address(port))),
        AcceptEvent::StreamFailed => AcceptActionView::Finish(Err(TransportFailure::Accept)),
    }
}

/// A running listener: the port that incoming stream requests must name.
#[derive(Clone, Copy, Debug, PartialEq, Eq, Structural)]
pub struct TorListenerIntern {
    pub port: u16,
}

impl TorListenerIntern {
    /// What the listener does on `event` while it waits for its next
    /// connection.  See `accept_step`.
    pub fn next(&self, event: AcceptEvent) -> (action: AcceptAction)
        ensures
            action@ == accept_step(self.port, event),
    {
        match event {
            AcceptEvent::Rendezvous => AcceptAction::AcceptRendezvous,
            AcceptEvent::NoRendezvous => AcceptAction::Finish(Err(TransportFailure::Aborted)),
            AcceptEvent::RendezvousAccepted => AcceptAction::AwaitStreamRequest,
            AcceptEvent::RendezvousFailed => AcceptAction::Finish(Err(TransportFailure::Aborted)),
            AcceptEvent::StreamRequest(kind) => {
                // Validate port correctness
                match kind {
                    StreamRequestKind::Begin { port } => {
                        if port != self.port {
                            AcceptAction::Finish(Err(TransportFailure::Aborted))
                        } else {
                            AcceptAction::AcceptStream
                        }
                    },
                    StreamRequestKind::Other => AcceptAction::Finish(
                        Err(TransportFailure::Aborted),
                    ),
                }
            },
            AcceptEvent::NoStreamRequest => AcceptAction::Finish(Err(TransportFailure::Aborted)),
            AcceptEvent::StreamAccepted => AcceptAction::Finish(
                Ok(Address::new("tor", "127.0.0.1", self.port)),
            ),
            AcceptEvent::StreamFailed => AcceptAction::Finish(Err(TransportFailure::Accept)),
        }
    }
}

} // verus!
