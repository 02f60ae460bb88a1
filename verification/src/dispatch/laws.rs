//! What holds of every registry.

use crate::dispatch::model::{as_messages, DeliveryView, SubsystemView};
use crate::error::Error;
use vstd::prelude::*;

verus! {

/// Registering a command makes it registered, keeps every other command as
/// it was, and keeps the registry well formed.
pub proof fn lemma_add_dispatch(s: SubsystemView, command: Seq<char>, other: Seq<char>)
    requires
        s.wf(),
    ensures
        s.add_dispatch(command).wf(),
        s.add_dispatch(command).registered(other) <==> s.registered(other) || other == command,
{
    let t = s.add_dispatch(command);
    if !s.registered(command) {
        let n = s.dispatchers.len() as int;
        assert(t.dispatchers[n].command == command);
        assert forall|a: int, b: int|
            0 <= a < b < t.dispatchers.len() implies t.dispatchers[a].command
            != t.dispatchers[b].command by {
            if b < n {
                assert(s.dispatchers[a].command != s.dispatchers[b].command);
            } else {
                assert(s.dispatchers[a].command != command);
            }
        }
        if s.registered(other) {
            let i = s.position(other);
            assert(t.dispatchers[i].command == other);
        }
        if t.registered(other) && other != command {
            let i = t.position(other);
            assert(s.dispatchers[i].command == other);
        }
    }
}

/// A registry with the commands of a well-formed registry, at the same
/// places, is well formed.
pub proof fn lemma_same_commands(s: SubsystemView, t: SubsystemView)
    requires
        s.wf(),
        s.same_commands(t),
    ensures
        t.wf(),
{
    assert forall|a: int, b: int| 0 <= a < b < t.dispatchers.len() implies t.dispatchers[a].command
        != t.dispatchers[b].command by {
        assert(s.dispatchers[a].command != s.dispatchers[b].command);
    }
}

/// In a well-formed registry the dispatcher of a command is found at one
/// place only.
pub proof fn lemma_position_unique(s: SubsystemView, command: Seq<char>, i: int)
    requires
        s.wf(),
        0 <= i < s.dispatchers.len(),
        s.dispatchers[i].command == command,
    ensures
        s.registered(command),
        s.position(command) == i,
{
    let p = s.position(command);
    if p < i {
        assert(s.dispatchers[p].command != s.dispatchers[i].command);
    } else if i < p {
        assert(s.dispatchers[i].command != s.dispatchers[p].command);
    }
}

/// A notification changes neither the commands nor the number or state of
/// the subscribers, so a well-formed registry stays well formed.
pub proof fn lemma_notify_shape(s: SubsystemView, command: Seq<char>, payload: Seq<u8>)
    requires
        s.wf(),
    ensures
        s.notify(command, payload).wf(),
        s.notify(command, payload).dispatchers.len() == s.dispatchers.len(),
        forall|i: int|
            0 <= i < s.dispatchers.len() ==> {
                &&& (#[trigger] s.notify(command, payload).dispatchers[i]).command
                    == s.dispatchers[i].command
                &&& s.notify(command, payload).dispatchers[i].subscribers.len()
                    == s.dispatchers[i].subscribers.len()
            },
        forall|i: int, j: int|
            s.has_subscriber(i, j) ==> (#[trigger] s.notify(
                command,
                payload,
            ).dispatchers[i].subscribers[j]).active == s.dispatchers[i].subscribers[j].active,
{
    lemma_same_commands(s, s.notify(command, payload));
}

/// Telling every subscriber of an error keeps the registry well formed.
pub proof fn lemma_trigger_error_wf(s: SubsystemView, e: Error)
    requires
        s.wf(),
    ensures
        s.trigger_error(e).wf(),
{
    lemma_same_commands(s, s.trigger_error(e));
}

/// Joining, letting go and taking from an inbox keep the registry well
/// formed: none of them touches a command name.
pub proof fn lemma_subscriptions_keep_wf(s: SubsystemView, i: int, j: int)
    requires
        s.wf(),
        0 <= i < s.dispatchers.len(),
    ensures
        s.subscribe_at(i).wf(),
        s.has_subscriber(i, j) ==> s.unsubscribe_at(i, j).wf() && s.take_at(i, j).wf(),
{
    lemma_same_commands(s, s.subscribe_at(i));
    if s.has_subscriber(i, j) {
        lemma_same_commands(s, s.unsubscribe_at(i, j));
        lemma_same_commands(s, s.take_at(i, j));
    }
}

/// One notification reaches every current subscriber of its command exactly
/// once, and nobody else.
pub proof fn lemma_notify_inbox(
    s: SubsystemView,
    command: Seq<char>,
    payload: Seq<u8>,
    i: int,
    j: int,
)
    requires
        s.wf(),
        s.has_subscriber(i, j),
    ensures
        s.notify(command, payload).has_subscriber(i, j),
        s.notify(command, payload).inbox(i, j) == if s.dispatchers[i].command == command
            && s.dispatchers[i].subscribers[j].active {
            s.inbox(i, j).push(DeliveryView::Message(payload))
        } else {
            s.inbox(i, j)
        },
{
    if s.dispatchers[i].command == command {
        lemma_position_unique(s, command, i);
    } else if s.registered(command) {
        assert(s.position(command) != i);
    }
}

/// Every subscriber of a command receives every later message of that
/// command exactly once and in arrival order: after the messages `payloads`
/// its inbox is what it was, followed by `payloads`.  This holds for each
/// subscriber by itself, so the order in which subscribers registered does
/// not matter; subscribers of other commands, and subscribers that let go,
/// receive nothing.
pub proof fn lemma_fan_out(
    s: SubsystemView,
    command: Seq<char>,
    payloads: Seq<Seq<u8>>,
    i: int,
    j: int,
)
    requires
        s.wf(),
        s.has_subscriber(i, j),
    ensures
        s.notify_all(command, payloads).wf(),
        s.notify_all(command, payloads).has_subscriber(i, j),
        s.notify_all(command, payloads).dispatchers[i].command == s.dispatchers[i].command,
        s.notify_all(command, payloads).dispatchers[i].subscribers[j].active
            == s.dispatchers[i].subscribers[j].active,
        s.notify_all(command, payloads).inbox(i, j) == if s.dispatchers[i].command == command
            && s.dispatchers[i].subscribers[j].active {
            s.inbox(i, j) + as_messages(payloads)
        } else {
            s.inbox(i, j)
        },
    decreases payloads.len(),
{
    if payloads.len() == 0 {
        assert(s.inbox(i, j) + as_messages(payloads) =~= s.inbox(i, j));
    } else {
        let before = s.notify_all(command, payloads.drop_last());
        lemma_fan_out(s, command, payloads.drop_last(), i, j);
        lemma_notify_shape(before, command, payloads.last());
        lemma_notify_inbox(before, command, payloads.last(), i, j);
        assert((s.inbox(i, j) + as_messages(payloads.drop_last())).push(
            DeliveryView::Message(payloads.last()),
        ) =~= s.inbox(i, j) + as_messages(payloads));
    }
}

/// A subscriber that joins a command receives every message of that command
/// that arrives afterwards, and nothing that arrived before: its inbox is
/// exactly those later messages.
pub proof fn lemma_new_subscriber(s: SubsystemView, command: Seq<char>, payloads: Seq<Seq<u8>>)
    requires
        s.wf(),
        s.registered(command),
    ensures
        ({
            let i = s.position(command);
            let j = s.dispatchers[i].subscribers.len() as int;
            let joined = s.subscribe_at(i);
            &&& joined.wf()
            &&& joined.has_subscriber(i, j)
            &&& joined.notify_all(command, payloads).inbox(i, j) == as_messages(payloads)
        }),
{
    let i = s.position(command);
    let j = s.dispatchers[i].subscribers.len() as int;
    let joined = s.subscribe_at(i);
    lemma_subscriptions_keep_wf(s, i, j);
    lemma_fan_out(joined, command, payloads, i, j);
    assert(Seq::<DeliveryView>::empty() + as_messages(payloads) =~= as_messages(payloads));
}

/// Two subscribers of one command that hold the same items hold the same
/// items afterwards, in the same order, whichever of them registered first.
pub proof fn lemma_subscribers_agree(
    s: SubsystemView,
    command: Seq<char>,
    payloads: Seq<Seq<u8>>,
    i: int,
    j1: int,
    j2: int,
)
    requires
        s.wf(),
        s.has_subscriber(i, j1),
        s.has_subscriber(i, j2),
        s.dispatchers[i].command == command,
        s.dispatchers[i].subscribers[j1].active,
        s.dispatchers[i].subscribers[j2].active,
        s.inbox(i, j1) == s.inbox(i, j2),
    ensures
        s.notify_all(command, payloads).inbox(i, j1) == s.notify_all(command, payloads).inbox(
            i,
            j2,
        ),
{
    lemma_fan_out(s, command, payloads, i, j1);
    lemma_fan_out(s, command, payloads, i, j2);
}

} // verus!
