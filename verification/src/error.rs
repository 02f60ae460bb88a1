//! The error values of the connection layer.

use vstd::prelude::*;

verus! {

/// The kind of an I/O failure, as far as this layer tells kinds apart.
#[derive(Clone, Copy, Debug, PartialEq, Eq, Structural)]
pub enum IoErrorKind {
    /// The stream ended before the bytes asked for had arrived.
    UnexpectedEof,
    /// A deadline passed.
    TimedOut,
    /// The connection was refused or aborted by policy.
    ConnectionAborted,
    /// Anything else.
    Other,
}

/// Every failure this layer reports.
#[derive(Clone, Copy, Debug, PartialEq, Eq, Structural)]
pub enum Error {
    /// The URL names a transport that does not exist.
    UnsupportedTransport,
    /// The URL names an upgrade that the transport does not offer.
    UnsupportedTransportUpgrade,
    /// Dialing, or upgrading the dialed stream, failed.
    ConnectFailed,
    /// The overall connect deadline passed.
    ConnectTimeout,
    /// A frame did not start with the magic bytes, or its header is not a
    /// header.
    MalformedPacket,
    /// The channel is stopped; also the uniform surface of every internal
    /// I/O fault.
    ChannelStopped,
    /// No handler is registered for a command.
    MissingDispatcher,
    /// A raw I/O failure, seen only inside the channel.
    Io(IoErrorKind),
}

impl Error {
    /// Configuration errors are found before any I/O is attempted.
    pub open spec fn is_configuration(self) -> bool {
        self == Error::UnsupportedTransport || self == Error::UnsupportedTransportUpgrade
    }

    /// Whether this is a configuration error.
    pub fn is_configuration_error(&self) -> (r: bool)
        ensures
            r == self.is_configuration(),
    {
        match self {
            Error::UnsupportedTransport => true,
            Error::UnsupportedTransportUpgrade => true,
            _ => false,
        }
    }
}

} // verus!
