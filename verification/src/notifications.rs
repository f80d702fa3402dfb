//! Hardware notifications as a pausable stream of sampled values.
//!
//! A worker blocks in the platform's wait call, samples a value on every
//! wake-up and queues it for a single consumer. This module holds every
//! decision of that arrangement as a transition on plain state: the
//! receiver that worker and consumer share, the worker's next step, and the
//! life cycle of the one service handle of a process. Locking, the condition
//! variable on which a paused worker parks, and the thread itself belong to
//! the caller.

use vstd::prelude::*;

verus! {

/// The most values a receiver queues before its worker has to wait for the
/// consumer.
pub const RX_BUF_SZ: usize = 128;

/// A notification event.
#[derive(Debug, Copy, Clone, PartialEq, Eq, Structural)]
pub enum Event {
    Any,
    DbgFrameAvailable,
}

/// A code on the wire that names no [`Event`].
#[derive(Debug, Copy, Clone, PartialEq, Eq, Structural)]
pub struct UnknownEvent {
    pub code: u32,
}

impl UnknownEvent {
    /// The text shown for this error.
    pub fn message(&self) -> (r: &'static str)
        ensures
            r@ == "Unknown event received"@,
    {
        "Unknown event received"
    }
}

impl Event {
    /// The code that stands for this event on the wire.
    pub open spec fn spec_code(self) -> u32 {
        match self {
            Event::Any => 0,
            Event::DbgFrameAvailable => 20,
        }
    }

    /// The event that `code` stands for, if any.
    pub open spec fn spec_from_code(code: u32) -> Option<Event> {
        if code == 0 {
            Some(Event::Any)
        } else if code == 20 {
            Some(Event::DbgFrameAvailable)
        } else {
            None
        }
    }
}

impl From<Event> for u32 {
    fn from(event: Event) -> (code: u32) {
        match event {
            Event::Any => 0,
            Event::DbgFrameAvailable => 20,
        }
    }
}

impl vstd::std_specs::convert::FromSpecImpl<Event> for u32 {
    open spec fn obeys_from_spec() -> bool {
        true
    }

    open spec fn from_spec(event: Event) -> u32 {
        event.spec_code()
    }
}

impl TryFrom<u32> for Event {
    type Error = UnknownEvent;

    fn try_from(value: u32) -> (r: Result<Event, UnknownEvent>) {
        match value {
            0 => Ok(Event::Any),
            20 => Ok(Event::DbgFrameAvailable),
            _ => Err(UnknownEvent { code: value }),
        }
    }
}

impl vstd::std_specs::convert::TryFromSpecImpl<u32> for Event {
    open spec fn obeys_try_from_spec() -> bool {
        true
    }

    open spec fn try_from_spec(value: u32) -> Result<Event, UnknownEvent> {
        match Event::spec_from_code(value) {
            Some(event) => Ok(event),
            None => Err(UnknownEvent { code: value }),
        }
    }
}

/// Every event is found again from its own code.
pub proof fn lemma_event_code_round_trip(event: Event)
    ensures
        Event::spec_from_code(event.spec_code()) == Some(event),
{
}

/// What a worker does next.
#[derive(Debug, Copy, Clone, PartialEq, Eq, Structural)]
pub enum WorkerAction {
    /// Block on the pause gate until the consumer starts the receiver.
    Park,
    /// Enter the platform's blocking wait for the event with this code.
    Wait(u32),
}

/// What became of a value that the worker handed to the queue.
pub enum Delivery<T> {
    /// The value is queued.
    Delivered,
    /// The queue holds `RX_BUF_SZ` values: the worker keeps the value, waits
    /// for room and offers it again.
    Full(T),
    /// The consumer has dropped the receiver: the worker ends, silently.
    Closed,
}

/// How one round of the worker's loop ended.
pub enum Turn<T> {
    /// The receiver is paused: the worker did not wait.
    Parked,
    /// The wait returned a code that names no event: nothing was sampled.
    Discarded,
    /// A value was sampled and queued.
    Delivered,
    /// A value was sampled and the queue is full: it is handed back.
    Blocked(T),
    /// A value was sampled and the consumer is gone: the worker ends.
    Exited,
}

/// The state of a receiver as contracts see it.
pub struct RxView<T> {
    /// The event that the worker waits for.
    pub event: Event,
    /// Whether the worker may enter its next wait.
    pub running: bool,
    /// The values sampled and not yet received, oldest first.
    pub queue: Seq<T>,
    /// Whether the consumer has dropped the receiver.
    pub closed: bool,
    /// Whether the worker has ended.
    pub severed: bool,
}

impl<T> RxView<T> {
    /// The state after `start`.
    pub open spec fn started(self) -> RxView<T> {
        RxView { running: true, ..self }
    }

    /// The state after `stop`.
    pub open spec fn stopped(self) -> RxView<T> {
        RxView { running: false, ..self }
    }

    /// What `receive` returns.
    pub open spec fn received(self) -> Option<T> {
        if self.queue.len() > 0 {
            Some(self.queue[0])
        } else {
            None
        }
    }

    /// The state after `receive`.
    pub open spec fn after_receive(self) -> RxView<T> {
        if self.queue.len() > 0 {
            RxView { queue: self.queue.drop_first(), ..self }
        } else {
            self
        }
    }

    /// Whether a poll would find the queue empty and the worker gone.
    pub open spec fn disconnected(self) -> bool {
        self.queue.len() == 0 && self.severed
    }

    /// The worker's next step at the pause gate.
    pub open spec fn action(self) -> WorkerAction {
        if self.running {
            WorkerAction::Wait(self.event.spec_code())
        } else {
            WorkerAction::Park
        }
    }

    /// The state after the worker offered `value` to the queue.
    pub open spec fn after_deliver(self, value: T) -> RxView<T> {
        if !self.closed && self.queue.len() < RX_BUF_SZ {
            RxView { queue: self.queue.push(value), ..self }
        } else {
            self
        }
    }

    /// The state after one round of the worker's loop, in which the wait
    /// returned `code` and the sample taken, if one was, is `value`.
    pub open spec fn after_turn(self, code: u32, value: T) -> RxView<T> {
        if self.running && Event::spec_from_code(code) is Some {
            self.after_deliver(value)
        } else {
            self
        }
    }

    /// The state after as many rounds of the worker's loop as `outcomes` has
    /// entries, each a code that the wait returned and the value sampled.
    pub open spec fn after_turns(self, outcomes: Seq<(u32, T)>) -> RxView<T>
        decreases outcomes.len(),
    {
        if outcomes.len() == 0 {
            self
        } else {
            self.after_turn(outcomes[0].0, outcomes[0].1).after_turns(outcomes.drop_first())
        }
    }
}

/// One consumer's pausable stream of the values sampled for one event.
///
/// The receiver is what worker and consumer share. It starts paused.
pub struct EventRx<T> {
    event: Event,
    running: bool,
    queue: Vec<T>,
    closed: bool,
    severed: bool,
}

impl<T> View for EventRx<T> {
    type V = RxView<T>;

    closed spec fn view(&self) -> RxView<T> {
        RxView {
            event: self.event,
            running: self.running,
            queue: self.queue@,
            closed: self.closed,
            severed: self.severed,
        }
    }
}

impl<T> EventRx<T> {
    /// The queue never holds more than `RX_BUF_SZ` values.
    pub open spec fn wf(&self) -> bool {
        self@.queue.len() <= RX_BUF_SZ
    }

    /// Start the event receiver: the worker proceeds past the pause gate.
    pub fn start(&mut self)
        ensures
            final(self)@ == old(self)@.started(),
    {
        self.running = true;
    }

    /// Stop the event receiver: the worker parks before its next wait. A wait
    /// that is under way is not interrupted.
    pub fn stop(&mut self)
        ensures
            final(self)@ == old(self)@.stopped(),
    {
        self.running = false;
    }

    /// The oldest value in the queue, if there is one. Never blocks.
    ///
    /// To poll a receiver whose queue is empty and whose worker has ended is a
    /// fault of the caller, who is to treat it as fatal.
    pub fn receive(&mut self) -> (r: Option<T>)
        requires
            !old(self)@.disconnected(),
        ensures
            r == old(self)@.received(),
            final(self)@ == old(self)@.after_receive(),
    {
        if self.queue.len() > 0 {
            let value = self.queue.remove(0);
            assert(self.queue@ =~= old(self).queue@.drop_first());
            Some(value)
        } else {
            None
        }
    }

    /// Whether the receiver is started.
    pub fn is_running(&self) -> (b: bool)
        ensures
            b == self@.running,
    {
        self.running
    }

    /// The event this receiver is bound to.
    pub fn event(&self) -> (e: Event)
        ensures
            e == self@.event,
    {
        self.event
    }

    /// The number of values that wait in the queue.
    pub fn pending(&self) -> (n: usize)
        ensures
            n == self@.queue.len(),
    {
        self.queue.len()
    }

    /// Whether a poll would find the queue empty and the worker gone.
    pub fn is_disconnected(&self) -> (b: bool)
        ensures
            b == self@.disconnected(),
    {
        self.queue.len() == 0 && self.severed
    }

    /// Whether the worker has ended.
    pub fn is_severed(&self) -> (b: bool)
        ensures
            b == self@.severed,
    {
        self.severed
    }

    /// Whether the consumer has dropped the receiver.
    pub fn is_closed(&self) -> (b: bool)
        ensures
            b == self@.closed,
    {
        self.closed
    }

    /// Records that the consumer has dropped the receiver.
    pub fn close(&mut self)
        ensures
            final(self)@ == (RxView { closed: true, ..old(self)@ }),
    {
        self.closed = true;
    }

    /// Records that the worker has ended.
    pub fn sever(&mut self)
        ensures
            final(self)@ == (RxView { severed: true, ..old(self)@ }),
    {
        self.severed = true;
    }

    /// The worker's next step at the pause gate.
    pub fn worker_action(&self) -> (a: WorkerAction)
        ensures
            a == self@.action(),
    {
        if self.running {
            WorkerAction::Wait(u32::from(self.event))
        } else {
            WorkerAction::Park
        }
    }

    /// Offers a sampled value to the queue on the worker's behalf.
    pub fn deliver(&mut self, value: T) -> (r: Delivery<T>)
        requires
            old(self).wf(),
        ensures
            final(self).wf(),
            final(self)@ == old(self)@.after_deliver(value),
            old(self)@.closed ==> r is Closed,
            !old(self)@.closed && old(self)@.queue.len() == RX_BUF_SZ ==> r == Delivery::Full(
                value,
            ),
            !old(self)@.closed && old(self)@.queue.len() < RX_BUF_SZ ==> r is Delivered,
    {
        if self.closed {
            Delivery::Closed
        } else if self.queue.len() >= RX_BUF_SZ {
            Delivery::Full(value)
        } else {
            self.queue.push(value);
            Delivery::Delivered
        }
    }

    /// One round of the worker's loop, with the platform's wait and the
    /// sampling callback handed in.
    ///
    /// While the receiver is paused neither is called. Otherwise `wait` is
    /// called once with the code of the bound event; where it returns a code
    /// that names an event, `sample` is called once with that event and its
    /// value is offered to the queue.
    pub fn worker_turn<W: Fn(u32) -> u32, F: Fn(Event) -> T>(&mut self, wait: W, sample: F) -> (r:
        Turn<T>)
        requires
            old(self).wf(),
            call_requires(wait, (old(self)@.event.spec_code(),)),
            forall|event: Event| call_requires(sample, (event,)),
        ensures
            final(self).wf(),
            !old(self)@.running ==> r is Parked && final(self)@ == old(self)@,
            old(self)@.running ==> exists|code: u32|
                {
                    &&& #[trigger] call_ensures(wait, (old(self)@.event.spec_code(),), code)
                    &&& match Event::spec_from_code(code) {
                        None => r is Discarded && final(self)@ == old(self)@,
                        Some(event) => exists|value: T|
                            {
                                &&& #[trigger] call_ensures(sample, (event,), value)
                                &&& final(self)@ == old(self)@.after_turn(code, value)
                                &&& old(self)@.closed ==> r is Exited
                                &&& !old(self)@.closed && old(self)@.queue.len() == RX_BUF_SZ
                                    ==> r == Turn::Blocked(value)
                                &&& !old(self)@.closed && old(self)@.queue.len() < RX_BUF_SZ
                                    ==> r is Delivered
                            },
                    }
                },
    {
        match self.worker_action() {
            WorkerAction::Park => Turn::Parked,
            WorkerAction::Wait(code) => {
                let received: u32 = wait(code);
                match Event::try_from(received) {
                    Err(_) => Turn::Discarded,
                    Ok(event) => {
                        let value = sample(event);
                        let ghost offered = value;
                        let r = match self.deliver(value) {
                            Delivery::Delivered => Turn::Delivered,
                            Delivery::Full(back) => Turn::Blocked(back),
                            Delivery::Closed => Turn::Exited,
                        };
                        assert(call_ensures(sample, (event,), offered));
                        r
                    },
                }
            },
        }
    }
}

/// While a receiver is paused its worker delivers nothing, however often the
/// wait would return: a stopped receiver with an empty queue yields no value
/// after any number of rounds of the worker's loop. Once started again, the
/// same receiver delivers the next sample.
pub proof fn lemma_pause_resume<T>(rx: RxView<T>, outcomes: Seq<(u32, T)>, event: Event, value: T)
    requires
        rx.queue.len() == 0,
        !rx.closed,
    ensures
        rx.stopped().after_turns(outcomes) == rx.stopped(),
        rx.stopped().after_turns(outcomes).received() is None,
        rx.stopped().after_turns(outcomes).action() == WorkerAction::Park,
        rx.stopped().after_turns(outcomes).started().action() == WorkerAction::Wait(
            rx.event.spec_code(),
        ),
        rx.stopped().after_turns(outcomes).started().after_turn(
            event.spec_code(),
            value,
        ).received() == Some(value),
    decreases outcomes.len(),
{
    if outcomes.len() > 0 {
        lemma_pause_resume(rx, outcomes.drop_first(), event, value);
    }
}

/// Values leave a receiver in the order in which the worker delivered them:
/// what is delivered joins the queue at its end, what is received leaves it
/// at its start, and a delivery changes nothing for the values that wait
/// already.
pub proof fn lemma_fifo<T>(rx: RxView<T>, value: T)
    requires
        !rx.closed,
        rx.queue.len() < RX_BUF_SZ,
    ensures
        rx.after_deliver(value).queue == rx.queue.push(value),
        rx.queue.len() == 0 ==> rx.after_deliver(value).received() == Some(value),
        rx.queue.len() > 0 ==> rx.after_deliver(value).received() == rx.received(),
        rx.queue.len() > 0 ==> rx.after_deliver(value).after_receive() == rx.after_receive().after_deliver(
            value,
        ),
{
    if rx.queue.len() > 0 {
        assert(rx.queue.push(value).drop_first() =~= rx.queue.drop_first().push(value));
    }
}

/// Why the notification service could not be set up.
#[derive(Debug, Copy, Clone, PartialEq, Eq, Structural)]
pub enum LifecycleError {
    /// Another service handle is alive in this process.
    AlreadyActive,
    /// The platform refused to set up its notifications.
    InitFailed,
}

impl LifecycleError {
    /// The text shown for this error.
    pub fn message(&self) -> (r: &'static str)
        ensures
            r@ == match *self {
                LifecycleError::AlreadyActive => "Only one notification service must exist at a time"@,
                LifecycleError::InitFailed => "Failed to initialize notification service"@,
            },
    {
        match self {
            LifecycleError::AlreadyActive => "Only one notification service must exist at a time",
            LifecycleError::InitFailed => "Failed to initialize notification service",
        }
    }
}

/// The mark of a process that says whether a service handle is alive.
pub struct ServiceFlag {
    active: bool,
}

impl ServiceFlag {
    /// Whether a service handle is alive.
    pub closed spec fn active(&self) -> bool {
        self.active
    }

    /// The mark of a process in which no handle was made yet.
    pub fn new() -> (r: ServiceFlag)
        ensures
            !r.active(),
    {
        ServiceFlag { active: false }
    }

    /// Whether a service handle is alive.
    pub fn is_active(&self) -> (b: bool)
        ensures
            b == self.active(),
    {
        self.active
    }
}

/// Singleton notification service: the one handle that owns the platform's
/// notifications. It is neither copied nor cloned.
pub struct Notifications {
    _owned: (),
}

impl Notifications {
    /// Create and initialize a new notification service.
    ///
    /// Fails where a handle is alive already, and then does not call `init`.
    /// Otherwise the flag is taken and `init` is called once; a status other
    /// than zero gives the flag back and fails.
    pub fn new<I: FnOnce() -> i32>(flag: &mut ServiceFlag, init: I) -> (r: Result<
        Notifications,
        LifecycleError,
    >)
        requires
            !old(flag).active() ==> call_requires(init, ()),
        ensures
            old(flag).active() ==> r == Err::<Notifications, LifecycleError>(
                LifecycleError::AlreadyActive,
            ) && final(flag).active(),
            !old(flag).active() ==> exists|status: i32|
                {
                    &&& #[trigger] call_ensures(init, (), status)
                    &&& status == 0 ==> r is Ok && final(flag).active()
                    &&& status != 0 ==> r == Err::<Notifications, LifecycleError>(
                        LifecycleError::InitFailed,
                    ) && !final(flag).active()
                },
    {
        if flag.active {
            Err(LifecycleError::AlreadyActive)
        } else {
            flag.active = true;
            let status: i32 = init();
            if status == 0 {
                Ok(Notifications { _owned: () })
            } else {
                flag.active = false;
                Err(LifecycleError::InitFailed)
            }
        }
    }

    /// Creates the receiver for `event`: paused, with nothing queued. The
    /// caller gives it a worker.
    pub fn event_receiver<T>(&self, event: Event) -> (rx: EventRx<T>)
        ensures
            rx.wf(),
            rx@ == (RxView {
                event,
                running: false,
                queue: Seq::<T>::empty(),
                closed: false,
                severed: false,
            }),
    {
        EventRx { event, running: false, queue: Vec::new(), closed: false, severed: false }
    }

    /// Ends the service: `cleanup` is called once, then the flag is given
    /// back. The handle is used up, so this happens once.
    pub fn shutdown<C: FnOnce() -> ()>(self, flag: &mut ServiceFlag, cleanup: C)
        requires
            call_requires(cleanup, ()),
        ensures
            call_ensures(cleanup, (), ()),
            !final(flag).active(),
    {
        cleanup();
        flag.active = false;
    }
}

} // verus!
