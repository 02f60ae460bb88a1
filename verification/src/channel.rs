//! One peer connection.
//!
//! A channel frames outgoing messages, reads incoming frames and hands them
//! to its dispatch subsystem, and owns the stop and ban lifecycle of the
//! connection.  The channel itself performs no I/O: its caller writes the
//! frames that `send` returns and feeds the bytes it has read to the
//! receive task, which says how many more bytes to read or that the
//! connection has ended.
//!
//! `model` holds the channel as a mathematical value and `laws` what is
//! proved of it.

pub mod laws;
pub mod model;

pub use self::model::{
    core_commands, core_subsystem, report_of, ChannelView, LoopOutcome, StepOutcome,
};

use crate::address::Address;
use crate::dispatch::{
    Delivery, MessageSubscription, MessageSubsystem, Publisher, SubscriberView, SubsystemView,
};
use crate::error::{Error, IoErrorKind};
use crate::frame::{
    encode_frame, frame_bytes, lemma_block_bounds, lemma_command_bounds, parse_command, read_block,
    read_command,
};
use crate::hosts::{HostColor, HostMove};
use crate::session::SessionBitFlag;
use crate::wire::{Parsed, Read};
use self::model::{lemma_round_consumes, lemma_shift_shift, lemma_shift_zero};
use vstd::prelude::*;
use vstd::slice::slice_subrange;

verus! {

/// Draws the identifier of a new channel from the operating system's random
/// source, through `rand::rngs::OsRng` and `rand::Rng::gen`.  Nothing is
/// known of the number drawn.
#[verifier::external_body]
fn random_id() -> u32 {
    rand::Rng::gen(&mut rand::rngs::OsRng)
}

/// What is known about a connection from its start.  Never changes.
#[derive(Debug)]
pub struct ChannelInfo {
    /// The address after transport processing, where that changed it.
    pub resolve_addr: Option<Address>,
    /// The address that was dialed or accepted.
    pub connect_addr: Address,
    /// When the connection started, in seconds since the epoch.
    pub start_time: u64,
    /// A random identifier.
    pub id: u32,
}

impl ChannelInfo {
    /// The record of a connection that starts at `start_time`, with a fresh
    /// random identifier.
    pub fn new(
        resolve_addr: Option<Address>,
        connect_addr: Address,
        start_time: u64,
    ) -> (r: ChannelInfo)
        ensures
            r.resolve_addr == resolve_addr,
            r.connect_addr == connect_addr,
            r.start_time == start_time,
    {
        ChannelInfo { resolve_addr, connect_addr, start_time, id: random_id() }
    }

    /// The address of the peer: the processed address where there is one,
    /// the connect address otherwise.
    pub open spec fn address(self) -> Address {
        match self.resolve_addr {
            Some(a) => a,
            None => self.connect_addr,
        }
    }
}

/// The version announcement of the peer, as received in the handshake.
#[derive(Debug)]
pub struct VersionMessage {
    pub payload: Vec<u8>,
}

/// The life of the receive task.  It runs at most once.
#[derive(Clone, Copy, Debug, PartialEq, Eq, Structural)]
pub enum TaskState {
    /// Not started.
    Idle,
    /// Reading frames.
    Running,
    /// Ended; it never runs again.
    Finished,
}

/// The handle of a subscription to the stop signal.
#[derive(Clone, Copy, Debug, PartialEq, Eq, Structural)]
pub struct StopSubscription {
    pub slot: usize,
}

/// How loudly the end of the receive loop is reported.
#[derive(Clone, Copy, Debug, PartialEq, Eq, Structural)]
pub enum Report {
    /// An ordinary disconnect.
    Info,
    /// A failure.
    Failure,
    /// Nothing is reported.
    Silent,
}

/// How a turn of the receive loop ended.
#[derive(Debug)]
pub enum LoopStatus {
    /// All complete frames were dispatched.  Drop the first `consumed`
    /// bytes, read exactly `needed` more, and call again.
    Pending { consumed: usize, needed: u64 },
    /// The loop ended after `consumed` bytes.  `cause` says why; what the
    /// supervisor is handed is always `ChannelStopped`.
    Ended { consumed: usize, cause: Error, ban: Option<HostMove> },
}

impl LoopStatus {
    /// What the loop hands its supervisor: `ChannelStopped` when it ended,
    /// nothing while it waits for bytes.
    pub fn exit_error(&self) -> (r: Option<Error>)
        ensures
            r == self@.exit_error(),
    {
        match self {
            LoopStatus::Pending { .. } => None,
            LoopStatus::Ended { .. } => Some(Error::ChannelStopped),
        }
    }
}

impl View for LoopStatus {
    type V = LoopOutcome;

    open spec fn view(&self) -> LoopOutcome {
        match self {
            LoopStatus::Pending { consumed, needed } => LoopOutcome::Pending {
                consumed: *consumed as nat,
                needed: *needed as nat,
            },
            LoopStatus::Ended { consumed, cause, ban } => LoopOutcome::Ended {
                consumed: *consumed as nat,
                cause: *cause,
                ban: *ban,
            },
        }
    }
}

/// How one round of the receive loop ended.
#[derive(Debug)]
pub enum Step {
    /// A frame of `consumed` bytes was dispatched.
    Dispatched { consumed: usize },
    /// The loop cannot go on.
    Halt(LoopStatus),
}

impl View for Step {
    type V = StepOutcome;

    open spec fn view(&self) -> StepOutcome {
        match self {
            Step::Dispatched { consumed } => StepOutcome::Dispatched { consumed: *consumed as nat },
            Step::Halt(status) => StepOutcome::Halt(status@),
        }
    }
}

/// One peer connection.
#[derive(Debug)]
pub struct Channel {
    message_subsystem: MessageSubsystem,
    stop_subscriber: Publisher,
    receive_task: TaskState,
    stopped: bool,
    session: SessionBitFlag,
    version: Option<VersionMessage>,
    /// The connection record.
    pub info: ChannelInfo,
}

impl View for Channel {
    type V = ChannelView;

    closed spec fn view(&self) -> ChannelView {
        ChannelView {
            subsystem: self.message_subsystem@,
            stop_subscribers: self.stop_subscriber@,
            task: self.receive_task,
            stopped: self.stopped,
            session: self.session,
            version: match self.version {
                Some(v) => Some(v.payload@),
                None => None,
            },
            info: self.info,
        }
    }
}

impl Channel {
    /// The invariant of a channel.
    pub open spec fn wf(&self) -> bool {
        self@.wf()
    }

    /// A channel for a connection that was just made.  It is not stopped,
    /// its receive task has not started, nobody subscribes to it, and its
    /// dispatch subsystem handles the core commands.
    pub fn new(
        resolve_addr: Option<Address>,
        connect_addr: Address,
        session: SessionBitFlag,
        start_time: u64,
    ) -> (r: Channel)
        ensures
            r.wf(),
            !r@.stopped,
            r@.task == TaskState::Idle,
            r@.stop_subscribers == Seq::<SubscriberView>::empty(),
            r@.subsystem == core_subsystem(),
            r@.session == session,
            r@.version.is_none(),
            r@.info.resolve_addr == resolve_addr,
            r@.info.connect_addr == connect_addr,
            r@.info.start_time == start_time,
    {
        let mut message_subsystem = MessageSubsystem::new();
        assert(message_subsystem@ == (SubsystemView { dispatchers: Seq::empty() }));
        Self::setup_dispatchers(&mut message_subsystem);
        let info = ChannelInfo::new(resolve_addr, connect_addr, start_time);
        Channel {
            message_subsystem,
            stop_subscriber: Publisher::new(),
            receive_task: TaskState::Idle,
            stopped: false,
            session,
            version: None,
            info,
        }
    }

    /// Registers the core commands.
    fn setup_dispatchers(subsystem: &mut MessageSubsystem)
        requires
            old(subsystem)@.wf(),
        ensures
            final(subsystem)@.wf(),
            final(subsystem)@ == old(subsystem)@.add_dispatch("version"@).add_dispatch(
                "verack"@,
            ).add_dispatch("ping"@).add_dispatch("pong"@).add_dispatch("getaddr"@).add_dispatch(
                "addr"@,
            ),
    {
        subsystem.add_dispatch("version");
        subsystem.add_dispatch("verack");
        subsystem.add_dispatch("ping");
        subsystem.add_dispatch("pong");
        subsystem.add_dispatch("getaddr");
        subsystem.add_dispatch("addr");
    }

    /// Registers a further command.  Higher layers do this before `start`.
    pub fn add_dispatch(&mut self, command: &str)
        requires
            old(self).wf(),
        ensures
            final(self).wf(),
            final(self)@ == (ChannelView {
                subsystem: old(self)@.subsystem.add_dispatch(command@),
                ..old(self)@
            }),
    {
        self.message_subsystem.add_dispatch(command);
    }

    /// Starts the receive task.  Returns whether it was started by this
    /// call: the task starts at most once, and never on a stopped channel.
    pub fn start(&mut self) -> (started: bool)
        requires
            old(self).wf(),
        ensures
            final(self).wf(),
            final(self)@ == old(self)@.start(),
            started == (old(self)@.task == TaskState::Idle && !old(self)@.stopped),
    {
        if self.receive_task == TaskState::Idle && !self.stopped {
            self.receive_task = TaskState::Running;
            true
        } else {
            false
        }
    }

    /// Stops the channel.  The first call ends the receive task and tells
    /// all subscribers; every later call does nothing.
    pub fn stop(&mut self)
        requires
            old(self).wf(),
        ensures
            final(self).wf(),
            final(self)@ == old(self)@.stop(),
            final(self)@.stopped,
            old(self)@.stopped ==> final(self)@ == old(self)@,
    {
        self.handle_stop(Err(Error::ChannelStopped));
    }

    /// Subscribes to the stop signal.  Fails with `ChannelStopped` exactly
    /// when the channel is stopped already.
    pub fn subscribe_stop(&mut self) -> (r: Result<StopSubscription, Error>)
        requires
            old(self).wf(),
        ensures
            final(self).wf(),
            old(self)@.stopped ==> r == Err::<StopSubscription, Error>(Error::ChannelStopped)
                && final(self)@ == old(self)@,
            !old(self)@.stopped ==> r == Ok::<StopSubscription, Error>(
                StopSubscription { slot: old(self)@.stop_subscribers.len() as usize },
            ) && final(self)@ == (ChannelView {
                stop_subscribers: old(self)@.stop_subscribers.push(
                    SubscriberView { active: true, inbox: Seq::empty() },
                ),
                ..old(self)@
            }),
    {
        if self.is_stopped() {
            return Err(Error::ChannelStopped);
        }
        let slot = self.stop_subscriber.subscribe();
        Ok(StopSubscription { slot })
    }

    /// Takes the stop signal from the inbox of `sub`, if it has arrived.
    pub fn poll_stop(&mut self, sub: StopSubscription) -> (r: Option<Delivery>)
        requires
            old(self).wf(),
        ensures
            final(self).wf(),
            sub.slot < old(self)@.stop_subscribers.len() && old(
                self,
            )@.stop_subscribers[sub.slot as int].inbox.len() > 0 ==> r.is_some() && r.unwrap()@
                == old(self)@.stop_subscribers[sub.slot as int].inbox[0] && final(self)@
                == (ChannelView {
                stop_subscribers: old(self)@.stop_subscribers.update(
                    sub.slot as int,
                    SubscriberView {
                        active: old(self)@.stop_subscribers[sub.slot as int].active,
                        inbox: old(self)@.stop_subscribers[sub.slot as int].inbox.drop_first(),
                    },
                ),
                ..old(self)@
            }),
            !(sub.slot < old(self)@.stop_subscribers.len() && old(
                self,
            )@.stop_subscribers[sub.slot as int].inbox.len() > 0) ==> r.is_none() && final(self)@
                == old(self)@,
    {
        if sub.slot < self.stop_subscriber.len() {
            self.stop_subscriber.take(sub.slot)
        } else {
            None
        }
    }

    /// Whether the channel is stopped.
    pub fn is_stopped(&self) -> (r: bool)
        ensures
            r == self@.stopped,
    {
        self.stopped
    }

    /// Prepares a message for sending: the frame that the caller is to write
    /// and flush.  On a stopped channel nothing is framed and the result is
    /// `ChannelStopped`.  The channel does not change.
    pub fn send(&self, command: &str, payload: &[u8]) -> (r: Result<Vec<u8>, Error>)
        requires
            command@.len() > 0,
        ensures
            match self@.send(command@, payload@) {
                Ok(frame) => r.is_ok() && r.unwrap()@ == frame,
                Err(e) => r == Err::<Vec<u8>, Error>(e),
            },
    {
        if self.is_stopped() {
            return Err(Error::ChannelStopped);
        }
        Ok(Self::send_message(command, payload))
    }

    /// Ends a send with what writing the frame gave.  A failed write stops
    /// the channel, and the caller sees `ChannelStopped` whatever the cause
    /// was.
    pub fn send_done(&mut self, written: Result<(), IoErrorKind>) -> (r: Result<(), Error>)
        requires
            old(self).wf(),
        ensures
            final(self).wf(),
            written.is_ok() ==> r == Ok::<(), Error>(()) && final(self)@ == old(self)@,
            written.is_err() ==> r == Err::<(), Error>(Error::ChannelStopped) && final(self)@
                == old(self)@.stop(),
    {
        match written {
            Ok(()) => Ok(()),
            Err(_) => {
                self.stop();
                Err(Error::ChannelStopped)
            },
        }
    }

    /// The frame of one outgoing message.
    fn send_message(command: &str, payload: &[u8]) -> (frame: Vec<u8>)
        requires
            command@.len() > 0,
        ensures
            frame@ == frame_bytes(command@, payload@),
    {
        encode_frame(command, payload)
    }

    /// Reads the magic bytes and the command name from the front of
    /// `stream` and returns the command with the number of bytes read.
    /// Fails with `MalformedPacket` when the magic bytes or the name region
    /// are wrong, and with an unexpected end of file when `stream` ends
    /// before the command does.
    pub fn read_command(&self, stream: &[u8]) -> (r: Result<(String, usize), Error>)
        ensures
            match parse_command(stream@) {
                Parsed::Done { value, consumed } => r.is_ok() && r.unwrap().0@ == value
                    && r.unwrap().1 == consumed,
                Parsed::Incomplete { needed } => r == Err::<(String, usize), Error>(
                    Error::Io(IoErrorKind::UnexpectedEof),
                ),
                Parsed::Malformed => r == Err::<(String, usize), Error>(Error::MalformedPacket),
            },
    {
        match read_command(stream) {
            Read::Done { value, consumed } => Ok((value, consumed)),
            Read::Incomplete { needed } => Err(Error::Io(IoErrorKind::UnexpectedEof)),
            Read::Malformed => Err(Error::MalformedPacket),
        }
    }

    /// Subscribes to the messages of `command`.  Fails with
    /// `MissingDispatcher` exactly when the command has no dispatcher.
    pub fn subscribe_msg(&mut self, command: &str) -> (r: Result<MessageSubscription, Error>)
        requires
            old(self).wf(),
        ensures
            final(self).wf(),
            !old(self)@.subsystem.registered(command@) ==> r == Err::<MessageSubscription, Error>(
                Error::MissingDispatcher,
            ) && final(self)@ == old(self)@,
            old(self)@.subsystem.registered(command@) ==> ({
                &&& r matches Ok(sub)
                &&& sub.dispatcher == old(self)@.subsystem.position(command@)
                &&& sub.slot == old(
                    self,
                )@.subsystem.dispatchers[sub.dispatcher as int].subscribers.len()
                &&& final(self)@ == (ChannelView {
                    subsystem: old(self)@.subsystem.subscribe_at(sub.dispatcher as int),
                    ..old(self)@
                })
            }),
    {
        self.message_subsystem.subscribe(command)
    }

    /// Takes the oldest item from the inbox of `sub`.
    pub fn receive(&mut self, sub: MessageSubscription) -> (r: Option<Delivery>)
        requires
            old(self).wf(),
        ensures
            final(self).wf(),
            old(self)@.subsystem.has_subscriber(sub.dispatcher as int, sub.slot as int) && old(
                self,
            )@.subsystem.inbox(sub.dispatcher as int, sub.slot as int).len() > 0 ==> r.is_some()
                && r.unwrap()@ == old(self)@.subsystem.inbox(
                sub.dispatcher as int,
                sub.slot as int,
            )[0] && final(self)@ == (ChannelView {
                subsystem: old(self)@.subsystem.take_at(sub.dispatcher as int, sub.slot as int),
                ..old(self)@
            }),
            !(old(self)@.subsystem.has_subscriber(sub.dispatcher as int, sub.slot as int) && old(
                self,
            )@.subsystem.inbox(sub.dispatcher as int, sub.slot as int).len() > 0) ==> r.is_none()
                && final(self)@ == old(self)@,
    {
        self.message_subsystem.receive(sub)
    }

    /// The stop handler of the receive task.  `result` is how the task
    /// ended, which is never a success.  The handler acts once: see
    /// `ChannelView::handle_stop`.
    pub fn handle_stop(&mut self, result: Result<(), Error>)
        requires
            old(self).wf(),
            result.is_err(),
        ensures
            final(self).wf(),
            final(self)@ == old(self)@.handle_stop(result->Err_0),
            final(self)@.stopped,
    {
        if !self.stopped {
            self.stopped = true;
            self.receive_task = TaskState::Finished;
            match result {
                Ok(()) => {},
                Err(e) => {
                    self.stop_subscriber.publish_failure(Error::ChannelStopped);
                    self.message_subsystem.trigger_error(e);
                },
            }
        }
    }

    /// One round of the receive loop on the bytes that have arrived and
    /// were not consumed yet.  See `ChannelView::receive_one`.
    pub fn receive_one(
        &mut self,
        stream: &[u8],
        end: Option<IoErrorKind>,
        now: u64,
    ) -> (step: Step)
        requires
            old(self).wf(),
        ensures
            final(self).wf(),
            (final(self)@, step@) == old(self)@.receive_one(stream@, end, now),
    {
        proof {
            reveal(ChannelView::receive_one);
        }
        if self.stopped {
            return Step::Halt(
                LoopStatus::Ended { consumed: 0, cause: Error::ChannelStopped, ban: None },
            );
        }
        match read_command(stream) {
            Read::Incomplete { needed } => Step::Halt(Self::starved(needed, end)),
            Read::Malformed => Step::Halt(
                LoopStatus::Ended { consumed: 0, cause: Error::MalformedPacket, ban: None },
            ),
            Read::Done { value: command, consumed: head } => {
                proof {
                    lemma_command_bounds(stream@);
                }
                if !self.message_subsystem.is_registered(command.as_str()) {
                    let peer = self.address().duplicate();
                    let request = self.ban(&peer, now);
                    return Step::Halt(
                        LoopStatus::Ended {
                            consumed: head,
                            cause: Error::MissingDispatcher,
                            ban: Some(request),
                        },
                    );
                }
                let body = slice_subrange(stream, head, stream.len());
                assert(body@ =~= stream@.skip(head as int));
                match read_block(body) {
                    Read::Incomplete { needed } => Step::Halt(Self::starved(needed, end)),
                    Read::Malformed => Step::Halt(
                        LoopStatus::Ended { consumed: 0, cause: Error::MalformedPacket, ban: None },
                    ),
                    Read::Done { value: payload, consumed: taken } => {
                        proof {
                            lemma_block_bounds(body@);
                        }
                        let _ = self.message_subsystem.notify(command.as_str(), payload.as_slice());
                        Step::Dispatched { consumed: head + taken }
                    },
                }
            },
        }
    }

    /// A turn of the receive loop: rounds until one halts.  See
    /// `ChannelView::receive_loop`.
    pub fn main_receive_loop(
        &mut self,
        stream: &[u8],
        end: Option<IoErrorKind>,
        now: u64,
    ) -> (status: LoopStatus)
        requires
            old(self).wf(),
        ensures
            final(self).wf(),
            (final(self)@, status@) == old(self)@.receive_loop(stream@, end, now),
    {
        let mut pos: usize = 0;
        proof {
            assert(stream@.skip(0) =~= stream@);
            lemma_shift_zero(old(self)@.receive_loop(stream@, end, now).1);
        }
        loop
            invariant
                self.wf(),
                pos <= stream.len(),
                old(self)@.receive_loop(stream@, end, now) == ({
                    let rest = self@.receive_loop(stream@.skip(pos as int), end, now);
                    (rest.0, rest.1.shift(pos as nat))
                }),
            decreases stream.len() - pos,
        {
            let rest = slice_subrange(stream, pos, stream.len());
            assert(rest@ =~= stream@.skip(pos as int));
            let ghost before = self@;
            let step = self.receive_one(rest, end, now);
            proof {
                lemma_round_consumes(before, rest@, end, now);
            }
            match step {
                Step::Halt(status) => {
                    return Self::shifted(status, pos);
                },
                Step::Dispatched { consumed } => {
                    proof {
                        assert(rest@.skip(consumed as int) =~= stream@.skip(
                            (pos + consumed) as int,
                        ));
                        lemma_shift_shift(
                            self@.receive_loop(rest@.skip(consumed as int), end, now).1,
                            consumed as nat,
                            pos as nat,
                        );
                    }
                    pos = pos + consumed;
                },
            }
        }
    }

    /// The status `status`, counted from `pos` bytes earlier.
    fn shifted(status: LoopStatus, pos: usize) -> (r: LoopStatus)
        requires
            match status@ {
                LoopOutcome::Pending { consumed, .. } => consumed + pos <= usize::MAX,
                LoopOutcome::Ended { consumed, .. } => consumed + pos <= usize::MAX,
            },
        ensures
            r@ == status@.shift(pos as nat),
    {
        match status {
            LoopStatus::Pending { consumed, needed } => LoopStatus::Pending {
                consumed: consumed + pos,
                needed,
            },
            LoopStatus::Ended { consumed, cause, ban } => LoopStatus::Ended {
                consumed: consumed + pos,
                cause,
                ban,
            },
        }
    }

    /// What the loop reports when it needs `needed` bytes that are not
    /// there.
    fn starved(needed: u64, end: Option<IoErrorKind>) -> (status: LoopStatus)
        ensures
            status@ == ChannelView::starve(needed as nat, end),
    {
        match end {
            None => LoopStatus::Pending { consumed: 0, needed },
            Some(kind) => LoopStatus::Ended { consumed: 0, cause: Error::Io(kind), ban: None },
        }
    }

    /// One turn of the supervised receive task: the receive loop, followed
    /// by the stop handler when the loop has ended.  Before `start` and
    /// after the end of the task nothing is read.  See
    /// `ChannelView::supervise`.
    pub fn supervise(
        &mut self,
        stream: &[u8],
        end: Option<IoErrorKind>,
        now: u64,
    ) -> (status: LoopStatus)
        requires
            old(self).wf(),
        ensures
            final(self).wf(),
            (final(self)@, status@) == old(self)@.supervise(stream@, end, now),
            old(self)@.task == TaskState::Running && status@.ended() ==> final(self)@.stopped,
    {
        match self.receive_task {
            TaskState::Running => {},
            _ => {
                return LoopStatus::Ended {
                    consumed: 0,
                    cause: Error::ChannelStopped,
                    ban: None,
                };
            },
        }
        let status = self.main_receive_loop(stream, end, now);
        match status.exit_error() {
            None => {},
            Some(e) => {
                self.handle_stop(Err(e));
            },
        }
        status
    }

    /// Bans `peer` and stops the channel.  Returns the request that the
    /// caller hands to the address book: `peer` moves to the black list,
    /// last seen at `last_seen`.
    pub fn ban(&mut self, peer: &Address, last_seen: u64) -> (request: HostMove)
        requires
            old(self).wf(),
        ensures
            final(self).wf(),
            final(self)@ == old(self)@.stop(),
            final(self)@.stopped,
            request == ChannelView::ban_request(*peer, last_seen),
    {
        let request = HostMove { address: peer.duplicate(), last_seen, color: HostColor::Black };
        self.stop();
        request
    }

    /// The address of the peer: the processed address where there is one,
    /// the connect address otherwise.
    pub fn address(&self) -> (r: &Address)
        ensures
            *r == self@.address(),
    {
        match &self.info.resolve_addr {
            Some(a) => a,
            None => &self.info.connect_addr,
        }
    }

    /// The address after transport processing, where there is one.
    pub fn resolve_addr(&self) -> (r: Option<Address>)
        ensures
            r == self@.info.resolve_addr,
    {
        match &self.info.resolve_addr {
            Some(a) => Some(a.duplicate()),
            None => None,
        }
    }

    /// The address that was dialed or accepted.
    pub fn connect_addr(&self) -> (r: &Address)
        ensures
            *r == self@.info.connect_addr,
    {
        &self.info.connect_addr
    }

    /// Records the version announcement of the peer.
    pub fn set_version(&mut self, version: VersionMessage)
        ensures
            final(self)@ == (ChannelView { version: Some(version.payload@), ..old(self)@ }),
    {
        self.version = Some(version);
    }

    /// The dispatch subsystem of this channel.
    pub fn message_subsystem(&self) -> (r: &MessageSubsystem)
        ensures
            r@ == self@.subsystem,
    {
        &self.message_subsystem
    }

    /// The class of the session that owns this channel.
    pub fn session_type_id(&self) -> (r: SessionBitFlag)
        ensures
            r == self@.session,
    {
        self.session
    }

    /// How loudly the end of the receive loop because of `cause` is
    /// reported on this channel.
    pub fn report(&self, cause: &Error) -> (r: Report)
        ensures
            r == report_of(self@.session, *cause),
    {
        if Self::is_eof_error(cause) {
            Report::Info
        } else if crate::session::session_reports_failures(self.session) {
            Report::Failure
        } else {
            Report::Silent
        }
    }

    /// Whether `err` is the end of the stream: an ordinary disconnect.
    pub fn is_eof_error(err: &Error) -> (r: bool)
        ensures
            r == (*err == Error::Io(IoErrorKind::UnexpectedEof)),
    {
        match err {
            Error::Io(kind) => match kind {
                IoErrorKind::UnexpectedEof => true,
                _ => false,
            },
            _ => false,
        }
    }
}

} // verus!
