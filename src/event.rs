use vstd::prelude::*;

use crate::menu_id::MenuId;

verus! {

/// Describes the activation of a menu item.
#[derive(Debug)]
pub struct MenuEvent {
    /// Identifier of the menu item that was activated.
    pub id: MenuId,
}

impl Clone for MenuEvent {
    fn clone(&self) -> (r: Self)
        ensures
            r == *self,
    {
        MenuEvent { id: self.id.clone() }
    }
}

/// An unbounded first-in first-out queue of menu events, shared by its sending and its
/// receiving end, both of which it holds.
#[verifier::external_body]
pub struct EventQueue {
    tx: crossbeam_channel::Sender<MenuEvent>,
    rx: crossbeam_channel::Receiver<MenuEvent>,
}

/// The events waiting in `q`, oldest first.
pub uninterp spec fn queued(q: EventQueue) -> Seq<MenuEvent>;

/// Relies on `crossbeam_channel::unbounded`: a new channel holds no message.
#[verifier::external_body]
fn new_queue() -> (r: EventQueue)
    ensures
        queued(r) == Seq::<MenuEvent>::empty(),
{
    let (tx, rx) = crossbeam_channel::unbounded();
    EventQueue { tx, rx }
}

/// Relies on `crossbeam_channel::Sender::send`: on an unbounded channel whose receiver is
/// alive (it is held beside the sender) the message is added at the back.
#[verifier::external_body]
fn push_event(q: &mut EventQueue, event: MenuEvent)
    ensures
        queued(*final(q)) == queued(*old(q)).push(event),
{
    let _ = q.tx.send(event);
}

/// Relies on `crossbeam_channel::Receiver::try_recv`: it takes the oldest message without
/// blocking, or reports that the channel is empty.
#[verifier::external_body]
fn pop_event(q: &mut EventQueue) -> (r: Option<MenuEvent>)
    ensures
        queued(*old(q)).len() == 0 ==> r is None && queued(*final(q)) == queued(*old(q)),
        queued(*old(q)).len() > 0 ==> r == Some(queued(*old(q))[0]) && queued(*final(q))
            == queued(*old(q)).drop_first(),
{
    q.rx.try_recv().ok()
}

/// The queue `q` after `events` are added at its back, one at a time, in order.
pub open spec fn push_all(q: Seq<MenuEvent>, events: Seq<MenuEvent>) -> Seq<MenuEvent>
    decreases events.len(),
{
    if events.len() == 0 {
        q
    } else {
        push_all(q, events.drop_last()).push(events.last())
    }
}

/// Events sent one after another to the queue come out in the order they were sent:
/// after sending `events` to a queue holding `q`, the queue holds `q` and then `events`.
pub proof fn lemma_queue_keeps_order(q: Seq<MenuEvent>, events: Seq<MenuEvent>)
    ensures
        push_all(q, events) == q + events,
    decreases events.len(),
{
    if events.len() > 0 {
        lemma_queue_keeps_order(q, events.drop_last());
        assert(q + events == (q + events.drop_last()).push(events.last()));
    } else {
        assert(q + events == q);
    }
}

/// How events are delivered.
#[derive(Debug, Clone, Copy, PartialEq, Eq, Structural)]
pub enum DeliveryMode {
    /// Nothing has decided yet; events would go to the queue.
    Undecided,
    /// Events go to the queue, for good.
    Queue,
    /// Delivery was switched away from the queue with no handler: events are dropped, for
    /// good.
    Disabled,
    /// Events go to the handler, for good.
    Handler,
}

/// The delivery state of a sink, with its handler where there is one.
enum Delivery<H> {
    Undecided,
    Queue,
    Disabled,
    Handler(H),
}

/// Where menu events go: a queue that the application polls, or a handler that is called
/// for each event.
///
/// The choice is made once: the first call of [`MenuEvent::set_event_handler`] decides it,
/// and leaves the queue for good (even with no handler), or the first event sent, which
/// picks the queue. Later calls change nothing.
pub struct MenuEventSink<H> {
    delivery: Delivery<H>,
    queue: EventQueue,
}

impl<H: Fn(MenuEvent)> MenuEventSink<H> {
    /// How events are delivered.
    pub closed spec fn mode(&self) -> DeliveryMode {
        match self.delivery {
            Delivery::Undecided => DeliveryMode::Undecided,
            Delivery::Queue => DeliveryMode::Queue,
            Delivery::Disabled => DeliveryMode::Disabled,
            Delivery::Handler(_) => DeliveryMode::Handler,
        }
    }

    /// The installed handler (meaningful in handler mode).
    pub closed spec fn handler(&self) -> H {
        self.delivery->Handler_0
    }

    /// The events waiting in the queue, oldest first.
    pub closed spec fn pending(&self) -> Seq<MenuEvent> {
        queued(self.queue)
    }

    /// The installed handler accepts every event.
    pub open spec fn wf(&self) -> bool {
        self.mode() == DeliveryMode::Handler ==> forall|e: MenuEvent| #[trigger] self.handler().requires((e,))
    }

    /// A sink that has not chosen its delivery mode yet, with an empty queue.
    pub fn new() -> (r: Self)
        ensures
            r.wf(),
            r.mode() == DeliveryMode::Undecided,
            r.pending() == Seq::<MenuEvent>::empty(),
    {
        MenuEventSink { delivery: Delivery::Undecided, queue: new_queue() }
    }

    /// Takes the oldest waiting event, or `None` at once where the queue is empty.
    pub fn try_recv(&mut self) -> (r: Option<MenuEvent>)
        ensures
            final(self).mode() == old(self).mode(),
            final(self).handler() == old(self).handler(),
            old(self).pending().len() == 0 ==> r is None && final(self).pending() == old(self).pending(),
            old(self).pending().len() > 0 ==> r == Some(old(self).pending()[0]) && final(self).pending()
                == old(self).pending().drop_first(),
    {
        pop_event(&mut self.queue)
    }
}

impl MenuEvent {
    /// The identifier of the item this event is for.
    pub open spec fn id_view(&self) -> Seq<char> {
        self.id@
    }

    /// Returns the identifier of the menu item that was activated.
    pub fn id(&self) -> (r: &MenuId)
        ensures
            *r == self.id,
    {
        &self.id
    }

    /// Installs `f` as the handler of `sink` (`Some`), or switches delivery away from the
    /// queue with no handler (`None`), unless the delivery mode is already decided, in which
    /// case nothing changes. Returns whether events now go to a handler.
    pub fn set_event_handler<H: Fn(MenuEvent)>(sink: &mut MenuEventSink<H>, f: Option<H>) -> (r: bool)
        requires
            old(sink).wf(),
            f is Some ==> forall|e: MenuEvent| #[trigger] f->Some_0.requires((e,)),
        ensures
            final(sink).wf(),
            final(sink).pending() == old(sink).pending(),
            old(sink).mode() != DeliveryMode::Undecided ==> final(sink).mode() == old(sink).mode()
                && final(sink).handler() == old(sink).handler(),
            old(sink).mode() == DeliveryMode::Undecided && f is None ==> final(sink).mode()
                == DeliveryMode::Disabled,
            old(sink).mode() == DeliveryMode::Undecided && f is Some ==> final(sink).mode()
                == DeliveryMode::Handler && final(sink).handler() == f->Some_0,
            r == (final(sink).mode() == DeliveryMode::Handler),
    {
        if let Delivery::Undecided = sink.delivery {
            sink.delivery = match f {
                Some(h) => Delivery::Handler(h),
                None => Delivery::Disabled,
            };
        }
        match &sink.delivery {
            Delivery::Handler(_) => true,
            _ => false,
        }
    }

    /// Delivers `event`: to the handler in handler mode, nowhere in disabled mode, else to
    /// the back of the queue. Where the mode is undecided, this picks the queue for good.
    pub fn send<H: Fn(MenuEvent)>(sink: &mut MenuEventSink<H>, event: MenuEvent)
        requires
            old(sink).wf(),
        ensures
            final(sink).wf(),
            old(sink).mode() == DeliveryMode::Handler ==> final(sink).mode() == DeliveryMode::Handler
                && final(sink).handler() == old(sink).handler() && final(sink).pending()
                == old(sink).pending() && old(sink).handler().ensures((event,), ()),
            old(sink).mode() == DeliveryMode::Disabled ==> final(sink).mode() == DeliveryMode::Disabled
                && final(sink).pending() == old(sink).pending(),
            old(sink).mode() == DeliveryMode::Undecided || old(sink).mode() == DeliveryMode::Queue
                ==> final(sink).mode() == DeliveryMode::Queue && final(sink).pending()
                == old(sink).pending().push(event),
    {
        if let Delivery::Undecided = sink.delivery {
            sink.delivery = Delivery::Queue;
        }
        match &sink.delivery {
            Delivery::Handler(h) => {
                assert(old(sink).handler().requires((event,)));
                h(event);
            },
            Delivery::Disabled => {},
            _ => {
                push_event(&mut sink.queue, event);
            },
        }
    }
}

} // verus!
