use darkfi_net::error::{Error, IoErrorKind};
use darkfi_net::tor::{
    AcceptAction, AcceptEvent, ConnectPrefs, DialAction, DialEvent, ListenAction, ListenEvent,
    StreamRequestKind, TorDialer, TorListener, TorListenerIntern, TorProvider, TransportFailure,
};

#[test]
fn first_dial_bootstraps_and_later_dials_reuse() {
    let dialer = TorDialer::new().unwrap();
    let mut provider = TorProvider::new();
    assert!(!provider.ready);
    assert!(matches!(dialer.do_dial(&mut provider, None, DialEvent::Begin), DialAction::Bootstrap));
    assert!(!provider.ready);
    let connect = dialer.do_dial(&mut provider, Some(30), DialEvent::Bootstrapped);
    assert!(provider.ready);
    assert!(matches!(
        connect,
        DialAction::Connect(ConnectPrefs { connect_to_onion_services: true, timer: Some(30) })
    ));
    // every later dial connects at once
    for _ in 0..3 {
        assert!(matches!(
            dialer.do_dial(&mut provider, None, DialEvent::Begin),
            DialAction::Connect(ConnectPrefs { connect_to_onion_services: true, timer: None })
        ));
        assert!(provider.ready);
    }
    let listener = TorListener::new().unwrap();
    assert!(matches!(listener.do_listen(&mut provider, 80, ListenEvent::Begin), ListenAction::Launch));
}

#[test]
fn failed_bootstrap_leaves_the_provider_empty() {
    let dialer = TorDialer::new().unwrap();
    let mut provider = TorProvider::new();
    assert!(matches!(
        dialer.do_dial(&mut provider, None, DialEvent::BootstrapFailed),
        DialAction::Finish(Err(TransportFailure::Bootstrap))
    ));
    assert!(!provider.ready);
    assert!(matches!(dialer.do_dial(&mut provider, None, DialEvent::Begin), DialAction::Bootstrap));
}

#[test]
fn dial_outcomes_are_distinct() {
    let dialer = TorDialer::new().unwrap();
    let mut provider = TorProvider { ready: true };
    assert!(matches!(
        dialer.do_dial(&mut provider, Some(5), DialEvent::Connected),
        DialAction::Finish(Ok(()))
    ));
    let failed = dialer.do_dial(&mut provider, Some(5), DialEvent::ConnectFailed);
    let timed_out = dialer.do_dial(&mut provider, Some(5), DialEvent::TimerElapsed);
    match (failed, timed_out) {
        (DialAction::Finish(Err(a)), DialAction::Finish(Err(b))) => {
            assert_eq!(a, TransportFailure::Dial);
            assert_eq!(b, TransportFailure::TimedOut);
            assert_ne!(a, TransportFailure::Bootstrap);
            assert_eq!(a.kind(), IoErrorKind::Other);
            assert_eq!(b.kind(), IoErrorKind::TimedOut);
            assert_eq!(a.message(), "Internal Tor error, see logged warning");
            assert_eq!(TransportFailure::Bootstrap.message(), "Internal Tor error, see logged warning");
            assert_eq!(TransportFailure::Bootstrap.kind(), IoErrorKind::Other);
            assert_eq!(a.to_error(), Error::Io(IoErrorKind::Other));
            assert_eq!(b.to_error(), Error::Io(IoErrorKind::TimedOut));
        }
        other => panic!("{:?}", other),
    }
    assert!(provider.ready);
}

#[test]
fn listen_setup() {
    let listener = TorListener::new().unwrap();
    assert_eq!(TorListener::nickname(), "darkfi_tor");
    let mut provider = TorProvider::new();
    assert!(matches!(listener.do_listen(&mut provider, 80, ListenEvent::Begin), ListenAction::Bootstrap));
    assert!(matches!(
        listener.do_listen(&mut provider, 80, ListenEvent::BootstrapFailed),
        ListenAction::Finish(Err(TransportFailure::Bootstrap))
    ));
    assert!(!provider.ready);
    assert!(matches!(listener.do_listen(&mut provider, 80, ListenEvent::Bootstrapped), ListenAction::Launch));
    assert!(provider.ready);
    assert!(matches!(
        listener.do_listen(&mut provider, 80, ListenEvent::ConfigFailed),
        ListenAction::Finish(Err(TransportFailure::Configure))
    ));
    assert!(matches!(
        listener.do_listen(&mut provider, 80, ListenEvent::LaunchFailed),
        ListenAction::Finish(Err(TransportFailure::Launch))
    ));
    assert!(matches!(
        listener.do_listen(&mut provider, 8080, ListenEvent::Launched),
        ListenAction::Finish(Ok(TorListenerIntern { port: 8080 }))
    ));
    for failure in [TransportFailure::Configure, TransportFailure::Launch, TransportFailure::Accept] {
        assert_eq!(failure.message(), "Internal Tor error");
        assert_eq!(failure.kind(), IoErrorKind::Other);
    }
}

#[test]
fn listener_accepts_only_requests_for_its_port() {
    let intern = TorListenerIntern { port: 8080 };
    assert!(matches!(intern.next(AcceptEvent::Rendezvous), AcceptAction::AcceptRendezvous));
    assert!(matches!(intern.next(AcceptEvent::RendezvousAccepted), AcceptAction::AwaitStreamRequest));
    assert!(matches!(
        intern.next(AcceptEvent::StreamRequest(StreamRequestKind::Begin { port: 8080 })),
        AcceptAction::AcceptStream
    ));
    for refused in [
        AcceptEvent::StreamRequest(StreamRequestKind::Begin { port: 8081 }),
        AcceptEvent::StreamRequest(StreamRequestKind::Begin { port: 0 }),
        AcceptEvent::StreamRequest(StreamRequestKind::Other),
        AcceptEvent::NoRendezvous,
        AcceptEvent::RendezvousFailed,
        AcceptEvent::NoStreamRequest,
    ] {
        match intern.next(refused) {
            AcceptAction::Finish(Err(e)) => {
                assert_eq!(e, TransportFailure::Aborted);
                assert_eq!(e.kind(), IoErrorKind::ConnectionAborted);
                assert_eq!(e.message(), "Connection Aborted");
                assert_eq!(e.to_error(), Error::Io(IoErrorKind::ConnectionAborted));
            }
            other => panic!("{:?}", other),
        }
    }
    assert!(matches!(
        intern.next(AcceptEvent::StreamFailed),
        AcceptAction::Finish(Err(TransportFailure::Accept))
    ));
    match intern.next(AcceptEvent::StreamAccepted) {
        AcceptAction::Finish(Ok(address)) => {
            assert_eq!(address.scheme, "tor");
            assert_eq!(address.host.as_deref(), Some("127.0.0.1"));
            assert_eq!(address.port, Some(8080));
        }
        other => panic!("{:?}", other),
    }
}
