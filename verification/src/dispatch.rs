//! The message dispatch subsystem of one channel: a registry from command
//! names to the subscribers of that command.
//!
//! Every subscriber owns an inbox.  A notification for a command is appended
//! to the inbox of every current subscriber of that command, once, so each
//! subscriber sees the messages of its command in arrival order, whatever
//! the order in which subscribers registered.
//!
//! `model` holds the registry as a mathematical value and `laws` what is
//! proved of it.

pub mod laws;
pub mod model;

pub use self::laws::{
    lemma_add_dispatch, lemma_fan_out, lemma_new_subscriber, lemma_notify_inbox,
    lemma_notify_shape, lemma_position_unique, lemma_same_commands, lemma_subscribers_agree,
    lemma_subscriptions_keep_wf, lemma_trigger_error_wf,
};
pub use self::model::{
    as_messages, publish_all, DeliveryView, DispatcherView, SubscriberView, SubsystemView,
};

use crate::error::Error;
use crate::text::same_text;
use crate::wire::copy_range;
use vstd::prelude::*;

verus! {

/// One item in a subscriber's inbox.
#[derive(Debug)]
pub enum Delivery {
    /// The payload of a message.
    Message(Vec<u8>),
    /// The error with which the channel ended.
    Failure(Error),
}

impl View for Delivery {
    type V = DeliveryView;

    open spec fn view(&self) -> DeliveryView {
        match self {
            Delivery::Message(payload) => DeliveryView::Message(payload@),
            Delivery::Failure(e) => DeliveryView::Failure(*e),
        }
    }
}

/// A subscriber: whether it is still held, and its inbox.
#[derive(Debug)]
pub struct Subscriber {
    active: bool,
    inbox: Vec<Delivery>,
}

impl View for Subscriber {
    type V = SubscriberView;

    closed spec fn view(&self) -> SubscriberView {
        SubscriberView {
            active: self.active,
            inbox: Seq::new(self.inbox@.len(), |k: int| self.inbox@[k]@),
        }
    }
}

/// A list of subscribers that are served together.
#[derive(Debug)]
pub struct Publisher {
    subscribers: Vec<Subscriber>,
}

impl View for Publisher {
    type V = Seq<SubscriberView>;

    closed spec fn view(&self) -> Seq<SubscriberView> {
        Seq::new(self.subscribers@.len(), |j: int| self.subscribers@[j]@)
    }
}

/// The subscribers of one command.
#[derive(Debug)]
pub struct Dispatcher {
    command: String,
    publisher: Publisher,
}

impl View for Dispatcher {
    type V = DispatcherView;

    closed spec fn view(&self) -> DispatcherView {
        DispatcherView { command: self.command@, subscribers: self.publisher@ }
    }
}

/// The handle of one subscription: the place of its dispatcher and its own
/// place among that dispatcher's subscribers.  Places are never reused.
#[derive(Clone, Copy, Debug, PartialEq, Eq, Structural)]
pub struct MessageSubscription {
    pub dispatcher: usize,
    pub slot: usize,
}

/// The registry of one channel.
#[derive(Debug)]
pub struct MessageSubsystem {
    dispatchers: Vec<Dispatcher>,
}

impl View for MessageSubsystem {
    type V = SubsystemView;

    closed spec fn view(&self) -> SubsystemView {
        SubsystemView {
            dispatchers: Seq::new(self.dispatchers@.len(), |i: int| self.dispatchers@[i]@),
        }
    }
}

impl Subscriber {
    fn new() -> (r: Subscriber)
        ensures
            r@ == (SubscriberView { active: true, inbox: Seq::empty() }),
    {
        let r = Subscriber { active: true, inbox: Vec::new() };
        assert(r@.inbox =~= Seq::empty());
        r
    }

    fn offer(&mut self, item: Delivery)
        ensures
            final(self)@ == old(self)@.offer(item@),
    {
        if self.active {
            self.inbox.push(item);
            assert(self@.inbox =~= old(self)@.inbox.push(item@));
        }
    }

    fn take(&mut self) -> (r: Option<Delivery>)
        ensures
            old(self)@.inbox.len() == 0 ==> r.is_none() && final(self)@ == old(self)@,
            old(self)@.inbox.len() > 0 ==> r.is_some() && r.unwrap()@ == old(self)@.inbox[0]
                && final(self)@ == (SubscriberView {
                active: old(self)@.active,
                inbox: old(self)@.inbox.drop_first(),
            }),
    {
        if self.inbox.len() == 0 {
            None
        } else {
            let item = self.inbox.remove(0);
            assert(self@.inbox =~= old(self)@.inbox.drop_first());
            Some(item)
        }
    }
}

impl Publisher {
    /// A publisher without subscribers.
    pub fn new() -> (r: Publisher)
        ensures
            r@ == Seq::<SubscriberView>::empty(),
    {
        let r = Publisher { subscribers: Vec::new() };
        assert(r@ =~= Seq::empty());
        r
    }

    /// The number of places handed out so far.
    pub fn len(&self) -> (n: usize)
        ensures
            n == self@.len(),
    {
        self.subscribers.len()
    }

    /// Adds a subscriber with an empty inbox and returns its place.
    pub fn subscribe(&mut self) -> (slot: usize)
        ensures
            slot == old(self)@.len(),
            final(self)@ == old(self)@.push(SubscriberView { active: true, inbox: Seq::empty() }),
    {
        let slot = self.subscribers.len();
        self.subscribers.push(Subscriber::new());
        assert(self@ =~= old(self)@.push(SubscriberView { active: true, inbox: Seq::empty() }));
        slot
    }

    /// Lets go of the subscriber at `slot`.
    pub fn unsubscribe(&mut self, slot: usize)
        requires
            slot < old(self)@.len(),
        ensures
            final(self)@ == old(self)@.update(
                slot as int,
                SubscriberView { active: false, inbox: old(self)@[slot as int].inbox },
            ),
    {
        self.subscribers[slot].active = false;
        assert(self@ =~= old(self)@.update(
            slot as int,
            SubscriberView { active: false, inbox: old(self)@[slot as int].inbox },
        ));
    }

    /// Offers a copy of `payload` to every subscriber.
    pub fn publish_message(&mut self, payload: &[u8])
        ensures
            final(self)@ == publish_all(old(self)@, DeliveryView::Message(payload@)),
    {
        let n = self.subscribers.len();
        let mut j: usize = 0;
        let ghost item = DeliveryView::Message(payload@);
        while j < n
            invariant
                j <= n,
                n == old(self).subscribers@.len(),
                self.subscribers@.len() == n,
                item == DeliveryView::Message(payload@),
                forall|k: int|
                    0 <= k < j ==> self.subscribers@[k]@ == old(self).subscribers@[k]@.offer(item),
                forall|k: int| j <= k < n ==> self.subscribers@[k] == old(self).subscribers@[k],
            decreases n - j,
        {
            let copy = copy_range(payload, 0, payload.len());
            assert(copy@ =~= payload@);
            self.subscribers[j].offer(Delivery::Message(copy));
            j = j + 1;
        }
        assert(self@ =~= publish_all(old(self)@, item));
    }

    /// Offers the error `e` to every subscriber.
    pub fn publish_failure(&mut self, e: Error)
        ensures
            final(self)@ == publish_all(old(self)@, DeliveryView::Failure(e)),
    {
        let n = self.subscribers.len();
        let mut j: usize = 0;
        let ghost item = DeliveryView::Failure(e);
        while j < n
            invariant
                j <= n,
                n == old(self).subscribers@.len(),
                self.subscribers@.len() == n,
                item == DeliveryView::Failure(e),
                forall|k: int|
                    0 <= k < j ==> self.subscribers@[k]@ == old(self).subscribers@[k]@.offer(item),
                forall|k: int| j <= k < n ==> self.subscribers@[k] == old(self).subscribers@[k],
            decreases n - j,
        {
            self.subscribers[j].offer(Delivery::Failure(e));
            j = j + 1;
        }
        assert(self@ =~= publish_all(old(self)@, item));
    }

    /// Takes the oldest item from the inbox at `slot`; `None` when the inbox
    /// is empty.
    pub fn take(&mut self, slot: usize) -> (r: Option<Delivery>)
        requires
            slot < old(self)@.len(),
        ensures
            old(self)@[slot as int].inbox.len() == 0 ==> r.is_none() && final(self)@ == old(self)@,
            old(self)@[slot as int].inbox.len() > 0 ==> r.is_some() && r.unwrap()@ == old(
                self,
            )@[slot as int].inbox[0] && final(self)@ == old(self)@.update(
                slot as int,
                SubscriberView {
                    active: old(self)@[slot as int].active,
                    inbox: old(self)@[slot as int].inbox.drop_first(),
                },
            ),
    {
        let r = self.subscribers[slot].take();
        if r.is_some() {
            assert(self@ =~= old(self)@.update(
                slot as int,
                SubscriberView {
                    active: old(self)@[slot as int].active,
                    inbox: old(self)@[slot as int].inbox.drop_first(),
                },
            ));
        } else {
            assert(self@ =~= old(self)@);
        }
        r
    }
}

impl Dispatcher {
    fn new(command: &str) -> (r: Dispatcher)
        ensures
            r@ == (DispatcherView { command: command@, subscribers: Seq::empty() }),
    {
        Dispatcher { command: command.to_owned(), publisher: Publisher::new() }
    }
}

impl MessageSubsystem {
    /// A registry without commands.
    pub fn new() -> (r: MessageSubsystem)
        ensures
            r@.dispatchers == Seq::<DispatcherView>::empty(),
            r@.wf(),
    {
        let r = MessageSubsystem { dispatchers: Vec::new() };
        assert(r@.dispatchers =~= Seq::empty());
        r
    }

    /// The place of the dispatcher of `command`, if it has one.
    pub fn find(&self, command: &str) -> (r: Option<usize>)
        requires
            self@.wf(),
        ensures
            r.is_some() == self@.registered(command@),
            r matches Some(i) ==> (i == self@.position(command@) && i < self@.dispatchers.len()
                && self@.dispatchers[i as int].command == command@),
    {
        let n = self.dispatchers.len();
        let mut i: usize = 0;
        while i < n
            invariant
                i <= n,
                n == self.dispatchers@.len(),
                self@.wf(),
                forall|k: int| 0 <= k < i ==> self@.dispatchers[k].command != command@,
            decreases n - i,
        {
            if same_text(self.dispatchers[i].command.as_str(), command) {
                assert(self@.dispatchers[i as int].command == command@);
                proof {
                    lemma_position_unique(self@, command@, i as int);
                }
                return Some(i);
            }
            assert(self@.dispatchers[i as int].command != command@);
            i = i + 1;
        }
        None
    }

    /// Whether `command` has a dispatcher.
    pub fn is_registered(&self, command: &str) -> (r: bool)
        requires
            self@.wf(),
        ensures
            r == self@.registered(command@),
    {
        self.find(command).is_some()
    }

    /// Registers `command`.  Registering a command twice changes nothing.
    pub fn add_dispatch(&mut self, command: &str)
        requires
            old(self)@.wf(),
        ensures
            final(self)@ == old(self)@.add_dispatch(command@),
            final(self)@.wf(),
            final(self)@.registered(command@),
    {
        if self.find(command).is_none() {
            self.dispatchers.push(Dispatcher::new(command));
            assert(self@.dispatchers =~= old(self)@.add_dispatch(command@).dispatchers);
            assert(self@.dispatchers[self@.dispatchers.len() - 1].command == command@);
        }
    }

    /// Adds a subscriber to `command` and returns its handle.  Fails with
    /// `MissingDispatcher` exactly when the command has no dispatcher.
    pub fn subscribe(&mut self, command: &str) -> (r: Result<MessageSubscription, Error>)
        requires
            old(self)@.wf(),
        ensures
            final(self)@.wf(),
            !old(self)@.registered(command@) ==> r == Err::<MessageSubscription, Error>(
                Error::MissingDispatcher,
            ) && final(self)@ == old(self)@,
            old(self)@.registered(command@) ==> ({
                &&& r matches Ok(sub)
                &&& sub.dispatcher == old(self)@.position(command@)
                &&& sub.slot == old(self)@.dispatchers[sub.dispatcher as int].subscribers.len()
                &&& final(self)@ == old(self)@.subscribe_at(sub.dispatcher as int)
            }),
    {
        match self.find(command) {
            None => Err(Error::MissingDispatcher),
            Some(i) => {
                let slot = self.dispatchers[i].publisher.subscribe();
                assert(self@.dispatchers =~= old(self)@.subscribe_at(i as int).dispatchers);
                Ok(MessageSubscription { dispatcher: i, slot })
            },
        }
    }

    /// Lets go of a subscription: nothing further is delivered to it.  A
    /// handle that names no subscriber changes nothing.
    pub fn unsubscribe(&mut self, sub: MessageSubscription)
        requires
            old(self)@.wf(),
        ensures
            final(self)@.wf(),
            final(self)@ == if old(self)@.has_subscriber(sub.dispatcher as int, sub.slot as int) {
                old(self)@.unsubscribe_at(sub.dispatcher as int, sub.slot as int)
            } else {
                old(self)@
            },
    {
        if sub.dispatcher < self.dispatchers.len() {
            if sub.slot < self.dispatchers[sub.dispatcher].publisher.len() {
                self.dispatchers[sub.dispatcher].publisher.unsubscribe(sub.slot);
                let ghost want = old(self)@.unsubscribe_at(sub.dispatcher as int, sub.slot as int);
                assert(self@.dispatchers =~= want.dispatchers);
                proof {
                    lemma_subscriptions_keep_wf(
                        old(self)@,
                        sub.dispatcher as int,
                        sub.slot as int,
                    );
                }
            }
        }
    }

    /// Hands a message of `command` to every current subscriber of that
    /// command.  Fails with `MissingDispatcher` exactly when the command has
    /// no dispatcher, and then changes nothing.
    pub fn notify(&mut self, command: &str, payload: &[u8]) -> (r: Result<(), Error>)
        requires
            old(self)@.wf(),
        ensures
            final(self)@.wf(),
            final(self)@ == old(self)@.notify(command@, payload@),
            r == if old(self)@.registered(command@) {
                Ok::<(), Error>(())
            } else {
                Err::<(), Error>(Error::MissingDispatcher)
            },
    {
        match self.find(command) {
            None => Err(Error::MissingDispatcher),
            Some(i) => {
                self.dispatchers[i].publisher.publish_message(payload);
                assert(self@.dispatchers =~= old(self)@.notify(command@, payload@).dispatchers);
                proof {
                    lemma_notify_shape(old(self)@, command@, payload@);
                }
                Ok(())
            },
        }
    }

    /// Tells every subscriber of every command that the channel ended with
    /// `e`.
    pub fn trigger_error(&mut self, e: Error)
        requires
            old(self)@.wf(),
        ensures
            final(self)@.wf(),
            final(self)@ == old(self)@.trigger_error(e),
    {
        let n = self.dispatchers.len();
        let mut i: usize = 0;
        while i < n
            invariant
                i <= n,
                n == old(self).dispatchers@.len(),
                self.dispatchers@.len() == n,
                forall|k: int|
                    0 <= k < i ==> self.dispatchers@[k]@ == old(self).dispatchers@[k]@.publish(
                        DeliveryView::Failure(e),
                    ),
                forall|k: int| i <= k < n ==> self.dispatchers@[k] == old(self).dispatchers@[k],
            decreases n - i,
        {
            self.dispatchers[i].publisher.publish_failure(e);
            i = i + 1;
        }
        assert(self@.dispatchers =~= old(self)@.trigger_error(e).dispatchers);
        proof {
            lemma_trigger_error_wf(old(self)@, e);
        }
    }

    /// Takes the oldest item from the inbox of `sub`.  Gives `None` when the
    /// inbox is empty or the handle names no subscriber, and then changes
    /// nothing.
    pub fn receive(&mut self, sub: MessageSubscription) -> (r: Option<Delivery>)
        requires
            old(self)@.wf(),
        ensures
            final(self)@.wf(),
            old(self)@.has_subscriber(sub.dispatcher as int, sub.slot as int) && old(self)@.inbox(
                sub.dispatcher as int,
                sub.slot as int,
            ).len() > 0 ==> r.is_some() && r.unwrap()@ == old(self)@.inbox(
                sub.dispatcher as int,
                sub.slot as int,
            )[0] && final(self)@ == old(self)@.take_at(sub.dispatcher as int, sub.slot as int),
            !(old(self)@.has_subscriber(sub.dispatcher as int, sub.slot as int) && old(self)@.inbox(
                sub.dispatcher as int,
                sub.slot as int,
            ).len() > 0) ==> r.is_none() && final(self)@ == old(self)@,
    {
        if sub.dispatcher < self.dispatchers.len() {
            if sub.slot < self.dispatchers[sub.dispatcher].publisher.len() {
                let r = self.dispatchers[sub.dispatcher].publisher.take(sub.slot);
                if r.is_some() {
                    let ghost want = old(self)@.take_at(sub.dispatcher as int, sub.slot as int);
                    assert(self@.dispatchers =~= want.dispatchers);
                } else {
                    assert(self@.dispatchers =~= old(self)@.dispatchers);
                }
                proof {
                    lemma_subscriptions_keep_wf(
                        old(self)@,
                        sub.dispatcher as int,
                        sub.slot as int,
                    );
                }
                return r;
            }
        }
        None
    }
}

} // verus!
