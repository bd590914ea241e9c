//! The event bridge: classification of transport events and the ordered
//! queue of broker events that the orchestrator drains.

use vstd::prelude::*;

verus! {

/// A broker event as the orchestrator sees it: produced by the transport
/// callback, consumed exactly once, in the order received.
#[derive(Debug, Clone, PartialEq)]
pub enum MqttEvent {
    Connected,
    Disconnected,
    Command(String),
}

/// A transport-level event, reduced to the plain values the classification
/// reads. `Received` carries the topic, when the transport knows it, and the
/// payload as text, when the payload was valid UTF-8. `Error` and `Other`
/// stand for transport diagnostics and for every further event kind.
#[derive(Debug)]
pub enum TransportEvent {
    Connected,
    Disconnected,
    Received { topic: Option<String>, payload: Option<String> },
    Error,
    Other,
}

/// Classifies one transport event into at most one broker event.
///
/// Connection transitions pass through; a message on exactly the command
/// topic becomes `Command` with its text; everything else (other topics,
/// unreadable payloads, transport errors) is dropped.
pub fn classify_event(event: TransportEvent, cmd_topic: &String) -> (r: Option<MqttEvent>)
    ensures
        event is Connected ==> r == Some(MqttEvent::Connected),
        event is Disconnected ==> r == Some(MqttEvent::Disconnected),
        event is Error ==> r is None,
        event is Other ==> r is None,
        (match event {
            TransportEvent::Received { topic, payload } => {
                match (topic, payload) {
                    (Some(t), Some(p)) => {
                        if t@ == cmd_topic@ {
                            r matches Some(MqttEvent::Command(c)) && c@ == p@
                        } else {
                            r is None
                        }
                    },
                    _ => r is None,
                }
            },
            _ => true,
        }),
{
    match event {
        TransportEvent::Connected => Some(MqttEvent::Connected),
        TransportEvent::Disconnected => Some(MqttEvent::Disconnected),
        TransportEvent::Received { topic, payload } => {
            match (topic, payload) {
                (Some(t), Some(p)) => {
                    if t == *cmd_topic {
                        Some(MqttEvent::Command(p))
                    } else {
                        None
                    }
                },
                _ => None,
            }
        },
        TransportEvent::Error => None,
        TransportEvent::Other => None,
    }
}

/// What enqueueing one event does to the queue's contents.
pub open spec fn enqueued(s: Seq<MqttEvent>, e: MqttEvent) -> Seq<MqttEvent> {
    s.push(e)
}

/// The ordered queue between the transport callback and the orchestrator.
/// Events leave in the order they entered; the orchestrator takes at most
/// one per tick.
pub struct EventQueue {
    events: Vec<MqttEvent>,
}

impl View for EventQueue {
    type V = Seq<MqttEvent>;

    closed spec fn view(&self) -> Seq<MqttEvent> {
        self.events@
    }
}

impl EventQueue {
    /// An empty queue.
    pub fn new() -> (q: Self)
        ensures
            q@ == Seq::<MqttEvent>::empty(),
    {
        EventQueue { events: Vec::new() }
    }

    /// Appends one event at the back; every earlier event stays in place.
    pub fn push(&mut self, event: MqttEvent)
        ensures
            final(self)@ == enqueued(old(self)@, event),
    {
        self.events.push(event);
    }

    /// Takes the oldest event, or nothing when the queue is empty. Never
    /// blocks and never reorders.
    pub fn try_next(&mut self) -> (r: Option<MqttEvent>)
        ensures
            old(self)@.len() == 0 ==> r is None && final(self)@ == old(self)@,
            old(self)@.len() > 0 ==> r == Some(old(self)@[0]) && final(self)@ == old(
                self,
            )@.drop_first(),
    {
        if self.events.len() > 0 {
            let e = self.events.remove(0);
            assert(self.events@ =~= old(self)@.drop_first());
            Some(e)
        } else {
            None
        }
    }

    /// How many events wait in the queue.
    pub fn len(&self) -> (n: usize)
        ensures
            n == self@.len(),
    {
        self.events.len()
    }
}

/// Draining events in order: enqueueing three events onto any queue and then
/// draining the whole queue yields the prior contents followed by the three
/// events, in exactly the order they were enqueued.
pub proof fn lemma_fifo_order(s: Seq<MqttEvent>, e1: MqttEvent, e2: MqttEvent, e3: MqttEvent)
    ensures
        enqueued(enqueued(enqueued(s, e1), e2), e3) == s + seq![e1, e2, e3],
        s.len() == 0 ==> {
            let q = enqueued(enqueued(enqueued(s, e1), e2), e3);
            &&& q[0] == e1
            &&& q.drop_first()[0] == e2
            &&& q.drop_first().drop_first()[0] == e3
            &&& q.drop_first().drop_first().drop_first().len() == 0
        },
{
    assert(enqueued(enqueued(enqueued(s, e1), e2), e3) =~= s + seq![e1, e2, e3]);
    if s.len() == 0 {
        let q = enqueued(enqueued(enqueued(s, e1), e2), e3);
        assert(q.drop_first() =~= seq![e2, e3]);
        assert(q.drop_first().drop_first() =~= seq![e3]);
        assert(q.drop_first().drop_first().drop_first() =~= Seq::<MqttEvent>::empty());
    }
}

} // verus!
