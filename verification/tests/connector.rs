use darkfi_net::address::Address;
use darkfi_net::connector::{ConnectPlan, Connector, Dial, DialOutcome, Settings};
use darkfi_net::error::Error;
use darkfi_net::session::SESSION_OUTBOUND;
use darkfi_net::transport::TransportName;

fn connector() -> Connector {
    Connector::new(Settings { connect_timeout_seconds: 15 })
}

#[test]
fn address_parse_reads_scheme_host_and_port() {
    let a = Address::parse("tcp://127.0.0.1:8080").unwrap();
    assert_eq!(a.scheme, "tcp");
    assert_eq!(a.host.as_deref(), Some("127.0.0.1"));
    assert_eq!(a.port, Some(8080));
    let a = Address::parse("TCP+TLS://example.org:26661/").unwrap();
    assert_eq!(a.scheme, "tcp+tls");
    assert_eq!(a.host.as_deref(), Some("example.org"));
    assert_eq!(a.port, Some(26661));
    let a = Address::parse("tor://abcdefghijklmnop.onion").unwrap();
    assert_eq!(a.scheme, "tor");
    assert_eq!(a.port, None);
    assert!(Address::parse("not a url").is_none());
    assert!(Address::parse("").is_none());
    let copy = a.duplicate();
    assert_eq!(copy.scheme, a.scheme);
    assert_eq!(copy.host, a.host);
    assert_eq!(copy.port, a.port);
}

#[test]
fn transport_names() {
    assert!(matches!(TransportName::try_from_scheme("tcp"), Ok(TransportName::Tcp(None))));
    assert!(matches!(TransportName::try_from_scheme("tor"), Ok(TransportName::Tor(None))));
    assert!(
        matches!(TransportName::try_from_scheme("tcp+tls"), Ok(TransportName::Tcp(Some(u))) if u == "tls")
    );
    assert!(
        matches!(TransportName::try_from_scheme("tor+tls"), Ok(TransportName::Tor(Some(u))) if u == "tls")
    );
    assert!(
        matches!(TransportName::try_from_scheme("tcp+a+b"), Ok(TransportName::Tcp(Some(u))) if u == "a+b")
    );
    assert!(matches!(TransportName::try_from_scheme("tcp+"), Ok(TransportName::Tcp(Some(u))) if u.is_empty()));
    assert!(matches!(TransportName::try_from_scheme("udp"), Err(Error::UnsupportedTransport)));
    assert!(matches!(TransportName::try_from_scheme("tcpx"), Err(Error::UnsupportedTransport)));
    assert!(matches!(TransportName::try_from_scheme("+tls"), Err(Error::UnsupportedTransport)));
    assert!(matches!(TransportName::try_from_scheme(""), Err(Error::UnsupportedTransport)));
}

#[test]
fn plans() {
    let c = connector();
    let plan = |url: &str| c.plan(&Address::parse(url).unwrap());
    assert_eq!(plan("tcp://h:1"), Ok(ConnectPlan { dial: Dial::Tcp, timeout_seconds: 15 }));
    assert_eq!(plan("tcp+tls://h:1"), Ok(ConnectPlan { dial: Dial::TcpTls, timeout_seconds: 15 }));
    assert_eq!(plan("tor://h.onion:1"), Ok(ConnectPlan { dial: Dial::Tor, timeout_seconds: 15 }));
    assert_eq!(plan("tcp+ssh://h:1"), Err(Error::UnsupportedTransportUpgrade));
    assert_eq!(plan("tor+tls://h:1"), Err(Error::UnsupportedTransportUpgrade));
    assert_eq!(plan("udp://h:1"), Err(Error::UnsupportedTransport));
    let long = Connector::new(Settings { connect_timeout_seconds: u32::MAX });
    assert_eq!(
        long.plan(&Address::new("tcp", "h", 1)),
        Ok(ConnectPlan { dial: Dial::Tcp, timeout_seconds: 4_294_967_295 })
    );
}

#[test]
fn unsupported_scheme_is_a_configuration_error_without_any_attempt() {
    let c = connector();
    let url = Address::parse("udp://host").unwrap();
    assert_eq!(url.scheme, "udp");
    let e = c.plan(&url).unwrap_err();
    assert_eq!(e, Error::UnsupportedTransport);
    assert!(e.is_configuration_error());
    // whatever an attempt would have given, the configuration error is what comes back
    for outcome in [
        DialOutcome::Connected,
        DialOutcome::SetupFailed,
        DialOutcome::DialFailed,
        DialOutcome::UpgradeFailed,
        DialOutcome::TimedOut,
    ] {
        let url = Address::parse("udp://host").unwrap();
        assert!(matches!(
            c.connect(url, outcome, SESSION_OUTBOUND, 0),
            Err(Error::UnsupportedTransport)
        ));
    }
}

#[test]
fn failed_upgrade_is_a_connect_error_not_a_timeout() {
    let c = connector();
    let url = Address::parse("tcp+tls://127.0.0.1:9999").unwrap();
    assert_eq!(c.plan(&url).unwrap().dial, Dial::TcpTls);
    let r = c.connect(url, DialOutcome::UpgradeFailed, SESSION_OUTBOUND, 0);
    assert!(matches!(r, Err(Error::ConnectFailed)));
    assert!(!matches!(r, Err(Error::ConnectTimeout)));
}

#[test]
fn connect_outcomes() {
    let c = connector();
    let url = || Address::parse("tcp://127.0.0.1:9999").unwrap();
    assert!(matches!(
        c.connect(url(), DialOutcome::TimedOut, SESSION_OUTBOUND, 0),
        Err(Error::ConnectTimeout)
    ));
    assert!(matches!(
        c.connect(url(), DialOutcome::SetupFailed, SESSION_OUTBOUND, 0),
        Err(Error::ConnectFailed)
    ));
    assert!(matches!(
        c.connect(url(), DialOutcome::DialFailed, SESSION_OUTBOUND, 0),
        Err(Error::ConnectFailed)
    ));
    let mut channel = c.connect(url(), DialOutcome::Connected, SESSION_OUTBOUND, 42).unwrap();
    assert!(!channel.is_stopped());
    assert_eq!(channel.info.start_time, 42);
    assert_eq!(channel.connect_addr().port, Some(9999));
    assert!(channel.resolve_addr().is_none());
    assert_eq!(channel.session_type_id(), SESSION_OUTBOUND);
    // constructed, not started: starting is the caller's decision
    assert!(channel.start());
}

#[test]
fn error_classes() {
    assert!(Error::UnsupportedTransport.is_configuration_error());
    assert!(Error::UnsupportedTransportUpgrade.is_configuration_error());
    assert!(!Error::ConnectFailed.is_configuration_error());
    assert!(!Error::ConnectTimeout.is_configuration_error());
    assert!(!Error::ChannelStopped.is_configuration_error());
    assert!(!Error::MalformedPacket.is_configuration_error());
    assert!(!Error::MissingDispatcher.is_configuration_error());
}
