//! The channel as a mathematical value, and what each operation makes of
//! it.

use crate::address::Address;
use crate::channel::{ChannelInfo, Report, TaskState};
use crate::dispatch::{publish_all, DeliveryView, SubscriberView, SubsystemView};
use crate::error::{Error, IoErrorKind};
use crate::frame::{
    frame_bytes, lemma_block_bounds, lemma_block_extends, lemma_command_bounds,
    lemma_command_extends, parse_block, parse_command,
};
use crate::hosts::{HostColor, HostMove};
use crate::session::{reports_failures, SessionBitFlag};
use crate::wire::Parsed;
use vstd::prelude::*;

verus! {

/// How a turn of the receive loop ended, over mathematical integers.
pub enum LoopOutcome {
    /// All complete frames were dispatched; `needed` more bytes must be read
    /// after the first `consumed`.
    Pending { consumed: nat, needed: nat },
    /// The loop ended.  `cause` is why, and `ban` is the request to the
    /// address book, where the peer was banned.
    Ended { consumed: nat, cause: Error, ban: Option<HostMove> },
}

impl LoopOutcome {
    /// The same outcome, counted from `n` bytes earlier in the stream.
    pub open spec fn shift(self, n: nat) -> LoopOutcome {
        match self {
            LoopOutcome::Pending { consumed, needed } => LoopOutcome::Pending {
                consumed: consumed + n,
                needed,
            },
            LoopOutcome::Ended { consumed, cause, ban } => LoopOutcome::Ended {
                consumed: consumed + n,
                cause,
                ban,
            },
        }
    }

    /// Whether the loop ended.
    pub open spec fn ended(self) -> bool {
        self is Ended
    }

    /// What the loop hands its supervisor when it ends: `ChannelStopped`,
    /// whatever the cause was.  The loop never ends with a success.
    pub open spec fn exit_error(self) -> Option<Error> {
        match self {
            LoopOutcome::Pending { .. } => None,
            LoopOutcome::Ended { .. } => Some(Error::ChannelStopped),
        }
    }
}

/// How loudly a session of class `session` reports that its receive loop
/// ended because of `cause`: the end of the stream is an ordinary
/// disconnect; anything else is an error, which the refinery keeps to
/// itself.
pub open spec fn report_of(session: SessionBitFlag, cause: Error) -> Report {
    if cause == Error::Io(IoErrorKind::UnexpectedEof) {
        Report::Info
    } else if reports_failures(session) {
        Report::Failure
    } else {
        Report::Silent
    }
}

/// Counting from where one stands changes nothing.
pub proof fn lemma_shift_zero(o: LoopOutcome)
    ensures
        o.shift(0) == o,
{
}

/// Counting from `a` bytes earlier and then from `b` more is counting from
/// `a + b` bytes earlier.
pub proof fn lemma_shift_shift(o: LoopOutcome, a: nat, b: nat)
    ensures
        o.shift(a).shift(b) == o.shift(a + b),
{
}

/// How one round of the receive loop ended, over mathematical integers.
pub enum StepOutcome {
    /// A frame of `consumed` bytes was dispatched.
    Dispatched { consumed: nat },
    /// The loop cannot go on.
    Halt(LoopOutcome),
}

/// A round that dispatches a frame consumes at least one byte and no more
/// than there are.  A round that waits consumes nothing and changes
/// nothing; a round that ends the loop consumes no more than there is.
pub proof fn lemma_round_consumes(
    c: ChannelView,
    stream: Seq<u8>,
    end: Option<IoErrorKind>,
    now: u64,
)
    ensures
        match c.receive_one(stream, end, now).1 {
            StepOutcome::Dispatched { consumed } => 1 <= consumed <= stream.len(),
            StepOutcome::Halt(LoopOutcome::Pending { consumed, needed }) => consumed == 0 && 1
                <= needed && c.receive_one(stream, end, now).0 == c && end.is_none(),
            StepOutcome::Halt(LoopOutcome::Ended { consumed, .. }) => consumed <= stream.len(),
        },
{
    reveal(ChannelView::receive_one);
    lemma_command_bounds(stream);
    lemma_command_extends(stream, Seq::empty());
    if let Parsed::Done { value, consumed } = parse_command(stream) {
        lemma_block_bounds(stream.skip(consumed as int));
        lemma_block_extends(stream.skip(consumed as int), Seq::empty());
    }
}

/// A channel as a mathematical value.
pub struct ChannelView {
    /// The dispatch subsystem.
    pub subsystem: SubsystemView,
    /// The subscribers to the stop signal.
    pub stop_subscribers: Seq<SubscriberView>,
    /// The receive task.
    pub task: TaskState,
    /// Whether the channel is stopped.
    pub stopped: bool,
    /// The class of the session that owns the channel.
    pub session: SessionBitFlag,
    /// The version announcement of the peer, once received.
    pub version: Option<Seq<u8>>,
    /// The connection record.
    pub info: ChannelInfo,
}

/// The command names that every channel handles from its construction.
pub open spec fn core_commands() -> Seq<Seq<char>> {
    seq!["version"@, "verack"@, "ping"@, "pong"@, "getaddr"@, "addr"@]
}

/// The dispatch subsystem of a new channel: the core commands, without
/// subscribers.
pub open spec fn core_subsystem() -> SubsystemView {
    (SubsystemView { dispatchers: Seq::empty() }).add_dispatch("version"@).add_dispatch(
        "verack"@,
    ).add_dispatch("ping"@).add_dispatch("pong"@).add_dispatch("getaddr"@).add_dispatch("addr"@)
}

impl ChannelView {
    /// The invariant of a channel: its registry is well formed, and a
    /// stopped channel has no live receive task.
    pub open spec fn wf(self) -> bool {
        &&& self.subsystem.wf()
        &&& self.stopped ==> self.task == TaskState::Finished
    }

    /// The address of the peer.
    pub open spec fn address(self) -> Address {
        self.info.address()
    }

    /// The channel after `start`: the receive task runs, unless it has run
    /// before or the channel is stopped.
    pub open spec fn start(self) -> ChannelView {
        if self.task == TaskState::Idle && !self.stopped {
            ChannelView { task: TaskState::Running, ..self }
        } else {
            self
        }
    }

    /// The channel after the stop handler ran with the error `e`.  The
    /// handler acts once: it marks the channel stopped, ends the receive
    /// task, tells every stop subscriber `ChannelStopped` and every message
    /// subscriber `e`.  On a stopped channel it does nothing.
    pub open spec fn handle_stop(self, e: Error) -> ChannelView {
        if self.stopped {
            self
        } else {
            ChannelView {
                stopped: true,
                task: TaskState::Finished,
                stop_subscribers: publish_all(
                    self.stop_subscribers,
                    DeliveryView::Failure(Error::ChannelStopped),
                ),
                subsystem: self.subsystem.trigger_error(e),
                ..self
            }
        }
    }

    /// The channel after `stop`.
    pub open spec fn stop(self) -> ChannelView {
        self.handle_stop(Error::ChannelStopped)
    }

    /// What `send` gives: the frame to write, or `ChannelStopped` on a
    /// stopped channel.
    pub open spec fn send(self, command: Seq<char>, payload: Seq<u8>) -> Result<Seq<u8>, Error> {
        if self.stopped {
            Err(Error::ChannelStopped)
        } else {
            Ok(frame_bytes(command, payload))
        }
    }

    /// The request that banning `peer` at `last_seen` sends to the address
    /// book.
    pub open spec fn ban_request(peer: Address, last_seen: u64) -> HostMove {
        HostMove { address: peer, last_seen, color: HostColor::Black }
    }

    /// The channel after the message `payload` of `command` was dispatched.
    pub open spec fn dispatch(self, command: Seq<char>, payload: Seq<u8>) -> ChannelView {
        ChannelView { subsystem: self.subsystem.notify(command, payload), ..self }
    }

    /// What the loop does when it needs bytes that are not there: it waits
    /// while the stream is open, and ends with the stream's error once the
    /// stream has ended.
    pub open spec fn starve(needed: nat, end: Option<IoErrorKind>) -> LoopOutcome {
        match end {
            None => LoopOutcome::Pending { consumed: 0, needed },
            Some(kind) => LoopOutcome::Ended { consumed: 0, cause: Error::Io(kind), ban: None },
        }
    }

    /// One round of the receive loop on the bytes `stream`, which is all
    /// that has arrived and not yet been consumed; `end` says whether and how
    /// the stream ended after them.  A round reads one command.  A command
    /// without a dispatcher bans the peer and halts the loop before its
    /// payload is looked at; a malformed frame halts the loop; a complete
    /// frame is dispatched.  A stopped channel processes nothing.
    #[verifier::opaque]
    pub open spec fn receive_one(self, stream: Seq<u8>, end: Option<IoErrorKind>, now: u64) -> (
        ChannelView,
        StepOutcome,
    ) {
        if self.stopped {
            (
                self,
                StepOutcome::Halt(
                    LoopOutcome::Ended { consumed: 0, cause: Error::ChannelStopped, ban: None },
                ),
            )
        } else {
            match parse_command(stream) {
                Parsed::Incomplete { needed } => (
                    self,
                    StepOutcome::Halt(Self::starve(needed, end)),
                ),
                Parsed::Malformed => (
                    self,
                    StepOutcome::Halt(
                        LoopOutcome::Ended {
                            consumed: 0,
                            cause: Error::MalformedPacket,
                            ban: None,
                        },
                    ),
                ),
                Parsed::Done { value: command, consumed: head } => {
                    if !self.subsystem.registered(command) {
                        (
                            self.stop(),
                            StepOutcome::Halt(
                                LoopOutcome::Ended {
                                    consumed: head,
                                    cause: Error::MissingDispatcher,
                                    ban: Some(Self::ban_request(self.address(), now)),
                                },
                            ),
                        )
                    } else {
                        match parse_block(stream.skip(head as int)) {
                            Parsed::Incomplete { needed } => (
                                self,
                                StepOutcome::Halt(Self::starve(needed, end)),
                            ),
                            Parsed::Malformed => (
                                self,
                                StepOutcome::Halt(
                                    LoopOutcome::Ended {
                                        consumed: 0,
                                        cause: Error::MalformedPacket,
                                        ban: None,
                                    },
                                ),
                            ),
                            Parsed::Done { value: payload, consumed: body } => (
                                self.dispatch(command, payload),
                                StepOutcome::Dispatched { consumed: head + body },
                            ),
                        }
                    }
                },
            }
        }
    }

    /// The receive loop: rounds, one after the other, until one halts.
    pub open spec fn receive_loop(self, stream: Seq<u8>, end: Option<IoErrorKind>, now: u64) -> (
        ChannelView,
        LoopOutcome,
    )
        decreases stream.len(),
        via Self::receive_loop_decreases
    {
        let (next, step) = self.receive_one(stream, end, now);
        match step {
            StepOutcome::Halt(outcome) => (next, outcome),
            StepOutcome::Dispatched { consumed } => {
                let rest = next.receive_loop(stream.skip(consumed as int), end, now);
                (rest.0, rest.1.shift(consumed))
            },
        }
    }

    #[via_fn]
    proof fn receive_loop_decreases(self, stream: Seq<u8>, end: Option<IoErrorKind>, now: u64) {
        lemma_round_consumes(self, stream, end, now);
    }

    /// One turn of the supervised receive task: the loop, and when the loop
    /// has ended, the stop handler with `ChannelStopped`.  The task runs
    /// only between `start` and its end: before and after, nothing is read
    /// and nothing changes.
    pub open spec fn supervise(self, stream: Seq<u8>, end: Option<IoErrorKind>, now: u64) -> (
        ChannelView,
        LoopOutcome,
    ) {
        if self.task != TaskState::Running {
            (self, LoopOutcome::Ended { consumed: 0, cause: Error::ChannelStopped, ban: None })
        } else {
            let (after, outcome) = self.receive_loop(stream, end, now);
            if outcome.ended() {
                (after.handle_stop(Error::ChannelStopped), outcome)
            } else {
                (after, outcome)
            }
        }
    }
}

} // verus!
