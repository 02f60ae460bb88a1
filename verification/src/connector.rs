//! Outbound connections.
//!
//! A connector turns a URL into a plan before anything is dialed: which
//! transport to use, whether to upgrade the stream, and the one deadline
//! that covers dialing and upgrading together.  Its caller carries the plan
//! out and reports how it went; the connector turns that report into a
//! channel or an error.  It never retries.

use crate::address::Address;
use crate::channel::{core_subsystem, Channel, TaskState};
use crate::dispatch::SubscriberView;
use crate::error::Error;
use crate::session::SessionBitFlag;
use crate::text::same_text;
use crate::transport::{transport_of, TransportName, TransportNameView};
use vstd::prelude::*;

verus! {

/// The network settings that a connector reads.
#[derive(Clone, Copy, Debug, PartialEq, Eq, Structural)]
pub struct Settings {
    /// The deadline for dialing and upgrading, in seconds.
    pub connect_timeout_seconds: u32,
}

/// How to reach a peer.
#[derive(Clone, Copy, Debug, PartialEq, Eq, Structural)]
pub enum Dial {
    /// Dial TCP.
    Tcp,
    /// Dial TCP, then upgrade the stream to TLS.
    TcpTls,
    /// Dial through the onion-routed overlay.
    Tor,
}

/// What a connector asks its caller to do.
#[derive(Clone, Copy, Debug, PartialEq, Eq, Structural)]
pub struct ConnectPlan {
    /// The transport and upgrade.
    pub dial: Dial,
    /// The deadline for the whole attempt, in seconds.
    pub timeout_seconds: u64,
}

/// How carrying out a plan went.
#[derive(Clone, Copy, Debug, PartialEq, Eq, Structural)]
pub enum DialOutcome {
    /// A stream is open, upgraded where the plan asked for it.
    Connected,
    /// The transport could not be set up for dialing.
    SetupFailed,
    /// Dialing failed.
    DialFailed,
    /// The stream was dialed, but the upgrade failed.
    UpgradeFailed,
    /// The deadline passed first.
    TimedOut,
}

/// The way of dialing that a transport with its upgrade stands for.  TCP
/// offers the upgrade `tls`; the overlay offers none.
pub open spec fn dial_of(transport: TransportNameView) -> Result<Dial, Error> {
    match transport {
        TransportNameView::Tcp(None) => Ok(Dial::Tcp),
        TransportNameView::Tcp(Some(u)) => if u == "tls"@ {
            Ok(Dial::TcpTls)
        } else {
            Err(Error::UnsupportedTransportUpgrade)
        },
        TransportNameView::Tor(None) => Ok(Dial::Tor),
        TransportNameView::Tor(Some(_)) => Err(Error::UnsupportedTransportUpgrade),
    }
}

/// The plan for the scheme `scheme` under the deadline `timeout`.
pub open spec fn plan_of(scheme: Seq<char>, timeout: u32) -> Result<ConnectPlan, Error> {
    match transport_of(scheme) {
        Err(e) => Err(e),
        Ok(t) => match dial_of(t) {
            Err(e) => Err(e),
            Ok(dial) => Ok(ConnectPlan { dial, timeout_seconds: timeout as u64 }),
        },
    }
}

/// The error that a failed attempt is reported as; `None` for success.
pub open spec fn outcome_error(outcome: DialOutcome) -> Option<Error> {
    match outcome {
        DialOutcome::Connected => None,
        DialOutcome::SetupFailed => Some(Error::ConnectFailed),
        DialOutcome::DialFailed => Some(Error::ConnectFailed),
        DialOutcome::UpgradeFailed => Some(Error::ConnectFailed),
        DialOutcome::TimedOut => Some(Error::ConnectTimeout),
    }
}

/// The error of a whole connect, if it fails: a configuration error comes
/// first, since then nothing was dialed; otherwise the error of the attempt.
pub open spec fn connect_error(scheme: Seq<char>, timeout: u32, outcome: DialOutcome) -> Option<
    Error,
> {
    match plan_of(scheme, timeout) {
        Err(e) => Some(e),
        Ok(_) => outcome_error(outcome),
    }
}

/// A scheme that names no transport, or an upgrade that its transport does
/// not offer, is a configuration error whatever the network would have
/// done; a failed upgrade is a connection error and never a timeout.
pub proof fn lemma_connect_errors(scheme: Seq<char>, timeout: u32, outcome: DialOutcome)
    ensures
        plan_of(scheme, timeout) matches Err(e) ==> e.is_configuration() && connect_error(
            scheme,
            timeout,
            outcome,
        ) == Some(e),
        plan_of(scheme, timeout).is_ok() ==> connect_error(
            scheme,
            timeout,
            DialOutcome::UpgradeFailed,
        ) == Some(Error::ConnectFailed),
        plan_of(scheme, timeout).is_ok() ==> connect_error(scheme, timeout, DialOutcome::TimedOut)
            == Some(Error::ConnectTimeout),
        connect_error(scheme, timeout, outcome).is_none() <==> plan_of(scheme, timeout).is_ok()
            && outcome == DialOutcome::Connected,
{
}

/// Creates outbound connections.
#[derive(Debug)]
pub struct Connector {
    settings: Settings,
}

impl Connector {
    /// The settings of this connector.
    pub closed spec fn settings(&self) -> Settings {
        self.settings
    }

    /// A connector with the given settings.
    pub fn new(settings: Settings) -> (r: Connector)
        ensures
            r.settings() == settings,
    {
        Connector { settings }
    }

    /// What to do to reach `connect_url`.  Fails with a configuration error
    /// exactly when the scheme names no transport or an upgrade that the
    /// transport does not offer.  Nothing is dialed here.
    pub fn plan(&self, connect_url: &Address) -> (r: Result<ConnectPlan, Error>)
        ensures
            r == plan_of(connect_url@.scheme, self.settings().connect_timeout_seconds),
    {
        let transport_name = match TransportName::try_from_scheme(connect_url.scheme.as_str()) {
            Ok(t) => t,
            Err(e) => {
                return Err(e);
            },
        };
        let dial = match Self::connect_channel(&transport_name) {
            Ok(d) => d,
            Err(e) => {
                return Err(e);
            },
        };
        Ok(ConnectPlan { dial, timeout_seconds: self.settings.connect_timeout_seconds as u64 })
    }

    /// The way of dialing for a transport and its upgrade.
    fn connect_channel(transport_name: &TransportName) -> (r: Result<Dial, Error>)
        ensures
            r == dial_of(transport_name@),
    {
        match transport_name {
            TransportName::Tcp(upgrade) => match upgrade {
                None => Ok(Dial::Tcp),
                Some(u) => if same_text(u.as_str(), "tls") {
                    Ok(Dial::TcpTls)
                } else {
                    Err(Error::UnsupportedTransportUpgrade)
                },
            },
            TransportName::Tor(upgrade) => match upgrade {
                None => Ok(Dial::Tor),
                Some(_) => Err(Error::UnsupportedTransportUpgrade),
            },
        }
    }

    /// Ends a connect with what the attempt gave.  A configuration error is
    /// reported first; then a timeout as `ConnectTimeout` and every other
    /// failure as `ConnectFailed`.  On success the result is a new channel
    /// for `connect_url` that has not been started.
    pub fn connect(
        &self,
        connect_url: Address,
        outcome: DialOutcome,
        session: SessionBitFlag,
        start_time: u64,
    ) -> (r: Result<Channel, Error>)
        ensures
            match connect_error(
                connect_url@.scheme,
                self.settings().connect_timeout_seconds,
                outcome,
            ) {
                Some(e) => r matches Err(got) && got == e,
                None => r matches Ok(channel) && {
                    &&& channel.wf()
                    &&& !channel@.stopped
                    &&& channel@.task == TaskState::Idle
                    &&& channel@.subsystem == core_subsystem()
                    &&& channel@.stop_subscribers == Seq::<SubscriberView>::empty()
                    &&& channel@.session == session
                    &&& channel@.info.connect_addr == connect_url
                    &&& channel@.info.resolve_addr.is_none()
                    &&& channel@.info.start_time == start_time
                },
            },
    {
        match self.plan(&connect_url) {
            Err(e) => {
                return Err(e);
            },
            Ok(_) => {},
        }
        match outcome {
            DialOutcome::Connected => Ok(Channel::new(None, connect_url, session, start_time)),
            DialOutcome::TimedOut => Err(Error::ConnectTimeout),
            DialOutcome::SetupFailed => Err(Error::ConnectFailed),
            DialOutcome::DialFailed => Err(Error::ConnectFailed),
            DialOutcome::UpgradeFailed => Err(Error::ConnectFailed),
        }
    }
}

} // verus!
