//! Session classes.  A channel belongs to one session; the class of the
//! session decides how loudly read and write failures are reported.

use vstd::prelude::*;

verus! {

/// A bit mask of session classes.
pub type SessionBitFlag = u32;

/// Sessions that accept connections.
pub const SESSION_INBOUND: SessionBitFlag = 0b00001;

/// Sessions that open connections to peers found on the network.
pub const SESSION_OUTBOUND: SessionBitFlag = 0b00010;

/// Sessions that open connections to configured peers.
pub const SESSION_MANUAL: SessionBitFlag = 0b00100;

/// Sessions that ask seed nodes for addresses.
pub const SESSION_SEED: SessionBitFlag = 0b01000;

/// Sessions that probe addresses to refine the address book.
pub const SESSION_REFINE: SessionBitFlag = 0b10000;

/// Every class.
pub const SESSION_ALL: SessionBitFlag = 0b11111;

/// Whether a session of class `session` reports failures as errors: every
/// class does but the refinery, whose probes are expected to fail.
pub open spec fn reports_failures(session: SessionBitFlag) -> bool {
    session & 0b01111 != 0
}

/// Whether failures on a channel of this session are reported as errors.
pub fn session_reports_failures(session: SessionBitFlag) -> (r: bool)
    ensures
        r == reports_failures(session),
{
    assert(SESSION_ALL & !SESSION_REFINE == 0b01111) by (bit_vector);
    session & (SESSION_ALL & !SESSION_REFINE) != 0
}

} // verus!
