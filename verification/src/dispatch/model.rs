//! The registry as a mathematical value, and what each operation makes of
//! it.

use crate::error::Error;
use vstd::prelude::*;

verus! {

/// One item in a subscriber's inbox, as a mathematical value.
pub enum DeliveryView {
    /// The payload of a message.
    Message(Seq<u8>),
    /// The error with which the channel ended.
    Failure(Error),
}

/// A subscriber as a mathematical value.
pub struct SubscriberView {
    /// Whether the subscription is still held.
    pub active: bool,
    /// What was delivered and not yet taken, oldest first.
    pub inbox: Seq<DeliveryView>,
}

impl SubscriberView {
    /// The subscriber after `item` was offered to it.
    pub open spec fn offer(self, item: DeliveryView) -> SubscriberView {
        if self.active {
            SubscriberView { active: true, inbox: self.inbox.push(item) }
        } else {
            self
        }
    }
}

/// The subscribers `subscribers` after `item` was offered to each of them.
pub open spec fn publish_all(subscribers: Seq<SubscriberView>, item: DeliveryView) -> Seq<
    SubscriberView,
> {
    Seq::new(subscribers.len(), |j: int| subscribers[j].offer(item))
}

/// The handlers of one command, as a mathematical value.
pub struct DispatcherView {
    /// The command name.
    pub command: Seq<char>,
    /// The subscribers, in the order in which they registered.
    pub subscribers: Seq<SubscriberView>,
}

impl DispatcherView {
    /// The dispatcher after `item` was offered to each of its subscribers.
    pub open spec fn publish(self, item: DeliveryView) -> DispatcherView {
        DispatcherView {
            command: self.command,
            subscribers: publish_all(self.subscribers, item),
        }
    }
}

/// The registry as a mathematical value: the dispatchers in the order in
/// which their commands were registered.
pub struct SubsystemView {
    pub dispatchers: Seq<DispatcherView>,
}

impl SubsystemView {
    /// No command is registered twice.
    pub open spec fn wf(self) -> bool {
        forall|a: int, b: int|
            0 <= a < b < self.dispatchers.len() ==> self.dispatchers[a].command
                != self.dispatchers[b].command
    }

    /// Whether `other` has the same commands at the same places.
    pub open spec fn same_commands(self, other: SubsystemView) -> bool {
        &&& other.dispatchers.len() == self.dispatchers.len()
        &&& forall|i: int|
            0 <= i < self.dispatchers.len() ==> (#[trigger] other.dispatchers[i]).command
                == self.dispatchers[i].command
    }

    /// Whether `command` has a dispatcher.
    pub open spec fn registered(self, command: Seq<char>) -> bool {
        exists|i: int| 0 <= i < self.dispatchers.len() && self.dispatchers[i].command == command
    }

    /// The place of the dispatcher of `command`.
    pub open spec fn position(self, command: Seq<char>) -> int {
        choose|i: int| 0 <= i < self.dispatchers.len() && self.dispatchers[i].command == command
    }

    /// The registry after `command` was registered.
    pub open spec fn add_dispatch(self, command: Seq<char>) -> SubsystemView {
        if self.registered(command) {
            self
        } else {
            SubsystemView {
                dispatchers: self.dispatchers.push(
                    DispatcherView { command, subscribers: Seq::empty() },
                ),
            }
        }
    }

    /// The registry after one more subscriber joined the dispatcher at `i`.
    pub open spec fn subscribe_at(self, i: int) -> SubsystemView {
        let d = self.dispatchers[i];
        SubsystemView {
            dispatchers: self.dispatchers.update(
                i,
                DispatcherView {
                    command: d.command,
                    subscribers: d.subscribers.push(
                        SubscriberView { active: true, inbox: Seq::empty() },
                    ),
                },
            ),
        }
    }

    /// The registry after the subscriber at `(i, j)` let go.
    pub open spec fn unsubscribe_at(self, i: int, j: int) -> SubsystemView {
        let d = self.dispatchers[i];
        SubsystemView {
            dispatchers: self.dispatchers.update(
                i,
                DispatcherView {
                    command: d.command,
                    subscribers: d.subscribers.update(
                        j,
                        SubscriberView { active: false, inbox: d.subscribers[j].inbox },
                    ),
                },
            ),
        }
    }

    /// The registry after a message of `command` arrived: every current
    /// subscriber of the command has it at the end of its inbox; nothing
    /// else changes.  Without a dispatcher for the command nothing changes.
    pub open spec fn notify(self, command: Seq<char>, payload: Seq<u8>) -> SubsystemView {
        if self.registered(command) {
            let i = self.position(command);
            SubsystemView {
                dispatchers: self.dispatchers.update(
                    i,
                    self.dispatchers[i].publish(DeliveryView::Message(payload)),
                ),
            }
        } else {
            self
        }
    }

    /// The registry after the messages `payloads` of `command` arrived one
    /// after the other.
    pub open spec fn notify_all(self, command: Seq<char>, payloads: Seq<Seq<u8>>) -> SubsystemView
        decreases payloads.len(),
    {
        if payloads.len() == 0 {
            self
        } else {
            self.notify_all(command, payloads.drop_last()).notify(command, payloads.last())
        }
    }

    /// The registry after every subscriber of every command was told of the
    /// error `e`.
    pub open spec fn trigger_error(self, e: Error) -> SubsystemView {
        SubsystemView {
            dispatchers: Seq::new(
                self.dispatchers.len(),
                |i: int| self.dispatchers[i].publish(DeliveryView::Failure(e)),
            ),
        }
    }

    /// The registry after the subscriber at `(i, j)` took the oldest item
    /// from its inbox.
    pub open spec fn take_at(self, i: int, j: int) -> SubsystemView {
        let d = self.dispatchers[i];
        let s = d.subscribers[j];
        SubsystemView {
            dispatchers: self.dispatchers.update(
                i,
                DispatcherView {
                    command: d.command,
                    subscribers: d.subscribers.update(
                        j,
                        SubscriberView { active: s.active, inbox: s.inbox.drop_first() },
                    ),
                },
            ),
        }
    }

    /// Whether `(i, j)` names a subscriber.
    pub open spec fn has_subscriber(self, i: int, j: int) -> bool {
        0 <= i < self.dispatchers.len() && 0 <= j < self.dispatchers[i].subscribers.len()
    }

    /// The inbox of the subscriber at `(i, j)`.
    pub open spec fn inbox(self, i: int, j: int) -> Seq<DeliveryView> {
        self.dispatchers[i].subscribers[j].inbox
    }
}

/// The payloads `payloads` as inbox items.
pub open spec fn as_messages(payloads: Seq<Seq<u8>>) -> Seq<DeliveryView> {
    Seq::new(payloads.len(), |k: int| DeliveryView::Message(payloads[k]))
}

} // verus!
