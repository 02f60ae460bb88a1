//! What holds of every channel.

use crate::channel::model::{
    core_commands, core_subsystem, lemma_round_consumes, lemma_shift_shift, lemma_shift_zero,
    ChannelView, LoopOutcome, StepOutcome,
};
use crate::channel::TaskState;
use crate::dispatch::{
    lemma_add_dispatch, lemma_notify_shape, lemma_trigger_error_wf, DeliveryView, SubsystemView,
};
use crate::error::{Error, IoErrorKind};
use crate::frame::{
    block_bytes, frame_bytes, frameable, header_bytes, lemma_block_extends, lemma_block_roundtrip,
    lemma_command_bounds, lemma_command_extends, lemma_header_roundtrip, lemma_magic_mismatch,
    magic, parse_block, parse_command, string_bytes,
};
use crate::wire::Parsed;
use vstd::prelude::*;

verus! {

/// A new channel handles the core commands and no others.
pub proof fn lemma_core_commands(command: Seq<char>)
    ensures
        core_subsystem().wf(),
        core_subsystem().registered(command) <==> core_commands().contains(command),
{
    let s0 = SubsystemView { dispatchers: Seq::empty() };
    let s1 = s0.add_dispatch("version"@);
    let s2 = s1.add_dispatch("verack"@);
    let s3 = s2.add_dispatch("ping"@);
    let s4 = s3.add_dispatch("pong"@);
    let s5 = s4.add_dispatch("getaddr"@);
    lemma_add_dispatch(s0, "version"@, command);
    lemma_add_dispatch(s1, "verack"@, command);
    lemma_add_dispatch(s2, "ping"@, command);
    lemma_add_dispatch(s3, "pong"@, command);
    lemma_add_dispatch(s4, "getaddr"@, command);
    lemma_add_dispatch(s5, "addr"@, command);
    let names = core_commands();
    assert(names[0] == "version"@ && names[1] == "verack"@ && names[2] == "ping"@ && names[3]
        == "pong"@ && names[4] == "getaddr"@ && names[5] == "addr"@);
}

/// Once a channel is stopped it stays stopped: no operation clears the
/// flag, and a stopped channel processes no input.
pub proof fn lemma_stopped_forever(
    c: ChannelView,
    e: Error,
    command: Seq<char>,
    payload: Seq<u8>,
    stream: Seq<u8>,
    end: Option<IoErrorKind>,
    now: u64,
)
    requires
        c.stopped,
    ensures
        c.start().stopped,
        c.stop() == c,
        c.handle_stop(e) == c,
        c.dispatch(command, payload).stopped,
        c.receive_one(stream, end, now).0 == c,
        c.receive_loop(stream, end, now) == (
            c,
            LoopOutcome::Ended { consumed: 0, cause: Error::ChannelStopped, ban: None },
        ),
        c.supervise(stream, end, now) == (
            c,
            LoopOutcome::Ended { consumed: 0, cause: Error::ChannelStopped, ban: None },
        ),
{
    reveal(ChannelView::receive_one);
}

/// Every operation keeps the invariant of a channel, and `stop` and the
/// stop handler leave it stopped.
pub proof fn lemma_invariant_is_kept(
    c: ChannelView,
    e: Error,
    command: Seq<char>,
    payload: Seq<u8>,
    stream: Seq<u8>,
    end: Option<IoErrorKind>,
    now: u64,
)
    requires
        c.wf(),
    ensures
        c.start().wf(),
        c.stop().wf() && c.stop().stopped,
        c.handle_stop(e).wf() && c.handle_stop(e).stopped,
        c.dispatch(command, payload).wf(),
        c.receive_one(stream, end, now).0.wf(),
        c.receive_loop(stream, end, now).0.wf(),
        c.supervise(stream, end, now).0.wf(),
    decreases stream.len(),
{
    reveal(ChannelView::receive_one);
    lemma_trigger_error_wf(c.subsystem, e);
    lemma_trigger_error_wf(c.subsystem, Error::ChannelStopped);
    lemma_notify_shape(c.subsystem, command, payload);
    let (next, step) = c.receive_one(stream, end, now);
    if let Parsed::Done { value: name, consumed: head } = parse_command(stream) {
        if let Parsed::Done { value: body, consumed } = parse_block(stream.skip(head as int)) {
            lemma_notify_shape(c.subsystem, name, body);
        }
    }
    if let StepOutcome::Dispatched { consumed } = step {
        lemma_round_consumes(c, stream, end, now);
        lemma_invariant_is_kept(next, e, command, payload, stream.skip(consumed as int), end, now);
    }
    let after = c.receive_loop(stream, end, now).0;
    lemma_trigger_error_wf(after.subsystem, Error::ChannelStopped);
}

/// After `stop`, `send` gives `ChannelStopped` and no frame: nothing is
/// written.
pub proof fn lemma_send_after_stop(c: ChannelView, command: Seq<char>, payload: Seq<u8>)
    ensures
        c.stop().send(command, payload) == Err::<Seq<u8>, Error>(Error::ChannelStopped),
{
}

/// Stopping twice is stopping once: the second call changes nothing, so no
/// subscriber hears of the stop a second time.
pub proof fn lemma_stop_twice(c: ChannelView)
    ensures
        c.stop().stop() == c.stop(),
{
}

/// The first stop tells each stop subscriber `ChannelStopped` exactly once:
/// its inbox grows by that one item.
pub proof fn lemma_stop_notifies_once(c: ChannelView, j: int)
    requires
        !c.stopped,
        0 <= j < c.stop_subscribers.len(),
        c.stop_subscribers[j].active,
    ensures
        c.stop().stop_subscribers.len() == c.stop_subscribers.len(),
        c.stop().stop_subscribers[j].inbox == c.stop_subscribers[j].inbox.push(
            DeliveryView::Failure(Error::ChannelStopped),
        ),
        c.stop().stop().stop_subscribers[j].inbox == c.stop().stop_subscribers[j].inbox,
{
}

/// A frame that does not start with the magic bytes is reported as
/// `MalformedPacket` and stops the channel; nothing of it is dispatched and
/// nobody is banned.
pub proof fn lemma_bad_magic_stops(
    c: ChannelView,
    stream: Seq<u8>,
    end: Option<IoErrorKind>,
    now: u64,
)
    requires
        c.task == TaskState::Running,
        !c.stopped,
        stream.len() >= 4,
        stream.subrange(0, 4) != magic(),
    ensures
        c.supervise(stream, end, now) == (
            c.stop(),
            LoopOutcome::Ended { consumed: 0, cause: Error::MalformedPacket, ban: None },
        ),
        c.supervise(stream, end, now).0.stopped,
{
    reveal(ChannelView::receive_one);
    lemma_magic_mismatch(stream);
}

/// A well-formed frame that names a command without a dispatcher bans the
/// peer once and stops the channel once, before the payload is looked at:
/// the outcome is the same whatever follows the header.  Whatever the peer
/// sends afterwards is never processed, and bans nobody again.
pub proof fn lemma_unknown_command_bans_once(
    c: ChannelView,
    command: Seq<char>,
    rest: Seq<u8>,
    later: Seq<u8>,
    end: Option<IoErrorKind>,
    now: u64,
)
    requires
        c.task == TaskState::Running,
        !c.stopped,
        !c.subsystem.registered(command),
        string_bytes(command).len() <= u64::MAX,
    ensures
        c.supervise(header_bytes(command) + rest, end, now) == (
            c.stop(),
            LoopOutcome::Ended {
                consumed: header_bytes(command).len(),
                cause: Error::MissingDispatcher,
                ban: Some(ChannelView::ban_request(c.address(), now)),
            },
        ),
        c.stop().supervise(later, end, now) == (
            c.stop(),
            LoopOutcome::Ended { consumed: 0, cause: Error::ChannelStopped, ban: None },
        ),
{
    reveal(ChannelView::receive_one);
    lemma_header_roundtrip(command, rest);
}

/// The receive task starts at most once: a second `start` changes nothing.
/// A channel that was not started reads nothing, and is not stopped by
/// being offered bytes.
pub proof fn lemma_start_once(
    c: ChannelView,
    stream: Seq<u8>,
    end: Option<IoErrorKind>,
    now: u64,
)
    ensures
        c.start().start() == c.start(),
        c.start().task != TaskState::Idle || c.stopped,
        c.task == TaskState::Idle ==> c.supervise(stream, end, now).0 == c,
{
}

/// A round never changes its mind when more bytes arrive: a round that
/// dispatched a frame, banned the peer or found a malformed frame does the
/// same on a longer stream.
pub proof fn lemma_round_extends(
    c: ChannelView,
    stream: Seq<u8>,
    more: Seq<u8>,
    end: Option<IoErrorKind>,
    now: u64,
)
    ensures
        c.receive_one(stream, None, now).1 matches StepOutcome::Dispatched { consumed }
            ==> c.receive_one(stream + more, end, now) == c.receive_one(stream, None, now),
        c.receive_one(stream, None, now).1 matches StepOutcome::Halt(
            LoopOutcome::Ended { consumed, cause, ban },
        ) ==> c.receive_one(stream + more, end, now) == c.receive_one(stream, None, now),
{
    reveal(ChannelView::receive_one);
    lemma_command_extends(stream, more);
    if let Parsed::Done { value, consumed } = parse_command(stream) {
        lemma_command_bounds(stream);
        assert((stream + more).skip(consumed as int) =~= stream.skip(consumed as int) + more);
        lemma_block_extends(stream.skip(consumed as int), more);
    }
}

/// Feeding the stream in pieces gives what feeding it whole gives.  If the
/// loop, given what has arrived so far, consumed `k` bytes and asked for
/// more, then the loop on all that will ever arrive is the loop continued
/// from there on what was left over and what arrived later.
pub proof fn lemma_receive_in_pieces(
    c: ChannelView,
    arrived: Seq<u8>,
    later: Seq<u8>,
    end: Option<IoErrorKind>,
    now: u64,
)
    requires
        c.receive_loop(arrived, None, now).1 is Pending,
    ensures
        ({
            let (after, first) = c.receive_loop(arrived, None, now);
            let k = first->Pending_consumed;
            &&& k <= arrived.len()
            &&& c.receive_loop(arrived + later, end, now) == ({
                let rest = after.receive_loop(arrived.skip(k as int) + later, end, now);
                (rest.0, rest.1.shift(k))
            })
        }),
    decreases arrived.len(),
{
    let (next, step) = c.receive_one(arrived, None, now);
    match step {
        StepOutcome::Halt(outcome) => {
            lemma_round_consumes(c, arrived, None, now);
            assert(arrived.skip(0) =~= arrived);
            lemma_shift_zero(c.receive_loop(arrived + later, end, now).1);
        },
        StepOutcome::Dispatched { consumed: n } => {
            lemma_round_consumes(c, arrived, None, now);
            lemma_round_extends(c, arrived, later, end, now);
            let tail = arrived.skip(n as int);
            let inner = next.receive_loop(tail, None, now);
            assert(inner.1 is Pending);
            lemma_receive_in_pieces(next, tail, later, end, now);
            let k_inner = inner.1->Pending_consumed;
            assert((arrived + later).skip(n as int) =~= tail + later);
            assert(tail.skip(k_inner as int) =~= arrived.skip((n + k_inner) as int));
            lemma_shift_shift(
                inner.0.receive_loop(tail.skip(k_inner as int) + later, end, now).1,
                k_inner,
                n,
            );
        },
    }
}

/// What one channel sends, another receives: the frame of a message, fed to
/// the receive loop of a running channel that handles the command, is
/// dispatched as that command with that payload, is consumed whole, and
/// leaves the loop waiting for the magic bytes of the next frame.
pub proof fn lemma_send_then_receive(
    sender: ChannelView,
    receiver: ChannelView,
    command: Seq<char>,
    payload: Seq<u8>,
    now: u64,
)
    requires
        !sender.stopped,
        !receiver.stopped,
        receiver.subsystem.registered(command),
        frameable(command, payload),
    ensures
        sender.send(command, payload) matches Ok(frame) && receiver.receive_loop(frame, None, now)
            == (
            receiver.dispatch(command, payload),
            LoopOutcome::Pending { consumed: frame.len(), needed: 4 },
        ),
{
    reveal(ChannelView::receive_one);
    let frame = frame_bytes(command, payload);
    let head = header_bytes(command);
    let body = block_bytes(payload);
    let empty = Seq::<u8>::empty();
    // the first round reads the header and then the payload
    lemma_header_roundtrip(command, body);
    lemma_block_roundtrip(payload, empty);
    assert(frame.skip(head.len() as int) =~= body + empty);
    // the second round finds nothing left
    assert(frame.skip(frame.len() as int) =~= empty);
    let after = receiver.dispatch(command, payload);
    assert(after.receive_loop(empty, None, now) == (
        after,
        LoopOutcome::Pending { consumed: 0, needed: 4 },
    ));
}

} // verus!
