//! The two ends of a streamed reply. The producer hands the fragments of a
//! reply to a channel, one after another, and gives up when the channel is
//! abandoned. The consumer forwards what arrives to the client until the
//! channel is closed or the client is gone.
//!
//! Both are state machines: the host performs the sends, the receives and the
//! waiting, and reports each outcome as an event.

use crate::text::texts;
use vstd::prelude::*;
use vstd::string::*;

verus! {

/// How many fragments the channel between producer and consumer holds before
/// the producer has to wait for the consumer.
pub const STREAM_CHANNEL_CAPACITY: usize = 32;

/// What the consumer of a stream can be told.
pub enum StreamEvent {
    /// A fragment has arrived from the producer.
    Fragment(String),
    /// The producer is done: the channel is closed and empty.
    Closed,
    /// The client has disconnected, or the server is shutting down.
    Shutdown,
}

/// What the consumer does about an event.
pub enum ConsumerAction {
    /// Pass the fragment on to the client, as one unit.
    Forward(String),
    /// End the stream.
    Stop,
}

/// The fragments that a consumer forwards when it is told `events`, in order:
/// those that arrive before the first event that is not a fragment.
pub open spec fn delivered(events: Seq<StreamEvent>) -> Seq<Seq<char>>
    decreases events.len(),
{
    if events.len() == 0 {
        Seq::empty()
    } else {
        match events[0] {
            StreamEvent::Fragment(text) => seq![text@] + delivered(events.skip(1)),
            _ => Seq::empty(),
        }
    }
}

/// Whether every event of `events` is a fragment.
pub open spec fn all_fragments(events: Seq<StreamEvent>) -> bool {
    forall|i: int| 0 <= i < events.len() ==> (#[trigger] events[i]) is Fragment
}

/// The texts of the fragments among `events`, in order.
pub open spec fn fragment_texts(events: Seq<StreamEvent>) -> Seq<Seq<char>>
    decreases events.len(),
{
    if events.len() == 0 {
        Seq::empty()
    } else {
        match events[0] {
            StreamEvent::Fragment(text) => seq![text@] + fragment_texts(events.skip(1)),
            _ => fragment_texts(events.skip(1)),
        }
    }
}

/// The consuming end of a stream. It is live until it is told that the channel
/// is closed or that the client is gone, and never again after that.
pub struct StreamConsumer {
    live: bool,
}

impl StreamConsumer {
    /// Whether the stream is still going.
    pub closed spec fn is_live(&self) -> bool {
        self.live
    }

    /// A consumer at the start of a stream.
    pub fn new() -> (r: Self)
        ensures
            r.is_live(),
    {
        StreamConsumer { live: true }
    }

    /// Whether the stream is still going.
    pub fn live(&self) -> (r: bool)
        ensures
            r == self.is_live(),
    {
        self.live
    }

    /// Decides what to do about `event`. A live consumer forwards a fragment
    /// and stays live; any other event ends the stream. A consumer whose
    /// stream has ended forwards nothing, whatever it is told.
    pub fn on_event(&mut self, event: StreamEvent) -> (action: ConsumerAction)
        ensures
            final(self).is_live() == (old(self).is_live() && event is Fragment),
            action == if old(self).is_live() && event is Fragment {
                ConsumerAction::Forward(event->Fragment_0)
            } else {
                ConsumerAction::Stop
            },
    {
        if !self.live {
            return ConsumerAction::Stop;
        }
        match event {
            StreamEvent::Fragment(text) => ConsumerAction::Forward(text),
            StreamEvent::Closed => {
                self.live = false;
                ConsumerAction::Stop
            },
            StreamEvent::Shutdown => {
                self.live = false;
                ConsumerAction::Stop
            },
        }
    }

    /// Runs a fresh consumer over `events`, one after another, and returns
    /// what it forwards.
    pub fn drain(events: &Vec<StreamEvent>) -> (out: Vec<String>)
        ensures
            texts(out@) == delivered(events@),
    {
        let mut consumer = StreamConsumer::new();
        let mut out: Vec<String> = Vec::new();
        let mut taken: usize = 0;
        proof {
            assert(events@.skip(0) == events@);
            assert(texts(out@) + delivered(events@) == delivered(events@));
        }
        while taken < events.len()
            invariant
                taken <= events.len(),
                consumer.is_live() ==> texts(out@) + delivered(events@.skip(taken as int))
                    == delivered(events@),
                !consumer.is_live() ==> texts(out@) == delivered(events@),
            decreases events.len() - taken,
        {
            let ghost rest = events@.skip(taken as int);
            let ghost was_live = consumer.is_live();
            let ghost prior = texts(out@);
            let event = match &events[taken] {
                StreamEvent::Fragment(text) => StreamEvent::Fragment(text.clone()),
                StreamEvent::Closed => StreamEvent::Closed,
                StreamEvent::Shutdown => StreamEvent::Shutdown,
            };
            proof {
                assert(event == rest[0]);
                assert(rest.skip(1) == events@.skip(taken + 1));
            }
            match consumer.on_event(event) {
                ConsumerAction::Forward(text) => {
                    out.push(text);
                    proof {
                        assert(texts(out@) == prior.push(text@));
                        assert(prior.push(text@) + delivered(rest.skip(1)) == prior + (seq![text@]
                            + delivered(rest.skip(1))));
                    }
                },
                ConsumerAction::Stop => {
                    proof {
                        if was_live {
                            assert(delivered(rest) == Seq::<Seq<char>>::empty());
                            assert(prior + Seq::<Seq<char>>::empty() == prior);
                        }
                    }
                },
            }
            taken = taken + 1;
        }
        proof {
            assert(events@.skip(taken as int).len() == 0);
            assert(texts(out@) + Seq::<Seq<char>>::empty() == texts(out@));
        }
        out
    }
}

/// The producing end of a stream: the fragments of one reply, and how far the
/// sending has come.
pub struct StreamProducer {
    fragments: Vec<String>,
    sent: usize,
    abandoned: bool,
}

/// What a producer is, mathematically.
pub struct ProducerView {
    pub fragments: Seq<Seq<char>>,
    pub sent: nat,
    pub abandoned: bool,
}

impl ProducerView {
    /// The fragment that is to be sent next, if the producer goes on.
    pub open spec fn pending(self) -> Option<Seq<char>> {
        if !self.abandoned && self.sent < self.fragments.len() {
            Some(self.fragments[self.sent as int])
        } else {
            None
        }
    }

    /// The producer after a send that the channel took, or did not take. A
    /// send that fails ends the producing; a producer with nothing to send
    /// stays as it is.
    pub open spec fn after_send(self, accepted: bool) -> ProducerView {
        if self.pending() is None {
            self
        } else if accepted {
            ProducerView { sent: self.sent + 1, ..self }
        } else {
            ProducerView { abandoned: true, ..self }
        }
    }

    /// The fragments that the channel has taken so far.
    pub open spec fn accepted(self) -> Seq<Seq<char>> {
        self.fragments.take(self.sent as int)
    }
}

impl View for StreamProducer {
    type V = ProducerView;

    closed spec fn view(&self) -> ProducerView {
        ProducerView {
            fragments: texts(self.fragments@),
            sent: self.sent as nat,
            abandoned: self.abandoned,
        }
    }
}

impl StreamProducer {
    /// The invariant: no more fragments were sent than there are.
    #[verifier::type_invariant]
    pub closed spec fn wf(&self) -> bool {
        self.sent <= self.fragments.len()
    }

    /// A producer that has all of `fragments` still to send.
    pub fn new(fragments: Vec<String>) -> (r: Self)
        ensures
            r.wf(),
            r@ == (ProducerView { fragments: texts(fragments@), sent: 0, abandoned: false }),
    {
        StreamProducer { fragments, sent: 0, abandoned: false }
    }

    /// The fragment to send next, or `None` where the producer is done: every
    /// fragment is sent, or the channel was abandoned.
    pub fn next_fragment(&self) -> (r: Option<String>)
        ensures
            r is Some == self@.pending() is Some,
            r matches Some(text) ==> Some(text@) == self@.pending(),
    {
        proof {
            use_type_invariant(self);
        }
        if !self.abandoned && self.sent < self.fragments.len() {
            Some(self.fragments[self.sent].clone())
        } else {
            None
        }
    }

    /// Records how the send of the pending fragment ended.
    pub fn on_send(&mut self, accepted: bool)
        ensures
            final(self).wf(),
            final(self)@ == old(self)@.after_send(accepted),
    {
        proof {
            use_type_invariant(&*self);
        }
        if !self.abandoned && self.sent < self.fragments.len() {
            if accepted {
                self.sent = self.sent + 1;
            } else {
                self.abandoned = true;
            }
        }
    }

    /// How many fragments the channel has taken.
    pub fn sent(&self) -> (r: usize)
        ensures
            r == self@.sent,
            r <= self@.fragments.len(),
    {
        proof {
            use_type_invariant(self);
        }
        self.sent
    }
}

/// Once a consumer is told anything but a fragment, nothing that arrives
/// afterwards is forwarded: what it delivers is what it had delivered up to
/// that event.
pub proof fn law_nothing_forwarded_after_stop(
    before: Seq<StreamEvent>,
    stop: StreamEvent,
    after: Seq<StreamEvent>,
)
    requires
        all_fragments(before),
        !(stop is Fragment),
    ensures
        delivered(before + seq![stop] + after) == fragment_texts(before),
        delivered(before + seq![stop] + after) == delivered(before + seq![stop]),
    decreases before.len(),
{
    let whole = before + seq![stop] + after;
    let cut = before + seq![stop];
    if before.len() == 0 {
        assert(whole[0] == stop);
        assert(cut[0] == stop);
    } else {
        assert(whole[0] == before[0]);
        assert(cut[0] == before[0]);
        assert(before[0] is Fragment);
        assert(whole.skip(1) == before.skip(1) + seq![stop] + after);
        assert(cut.skip(1) == before.skip(1) + seq![stop]);
        assert(all_fragments(before.skip(1))) by {
            assert forall|i: int| 0 <= i < before.skip(1).len() implies (
            #[trigger] before.skip(1)[i]) is Fragment by {
                assert(before.skip(1)[i] == before[i + 1]);
            }
        }
        law_nothing_forwarded_after_stop(before.skip(1), stop, after);
    }
}

/// A stream that nothing cuts short delivers every fragment, in order.
pub proof fn law_uncut_stream_delivers_all(fragments: Seq<StreamEvent>)
    requires
        all_fragments(fragments),
    ensures
        delivered(fragments + seq![StreamEvent::Closed]) == fragment_texts(fragments),
{
    law_nothing_forwarded_after_stop(fragments, StreamEvent::Closed, Seq::empty());
    assert(fragments + seq![StreamEvent::Closed] + Seq::<StreamEvent>::empty() == fragments
        + seq![StreamEvent::Closed]);
}

/// A producer never sends past a failed send, and never more than it has: what
/// the channel has taken is a prefix of the reply's fragments, and it stays
/// the same once the channel is abandoned.
pub proof fn law_producer_stops_at_failed_send(producer: ProducerView, accepted: bool)
    requires
        producer.sent <= producer.fragments.len(),
    ensures
        producer.after_send(accepted).sent <= producer.fragments.len(),
        producer.after_send(accepted).fragments == producer.fragments,
        producer.abandoned ==> producer.after_send(accepted) == producer,
        !accepted ==> producer.after_send(accepted).pending() is None
            && producer.after_send(accepted).accepted() == producer.accepted(),
        accepted && producer.pending() is Some ==> producer.after_send(accepted).accepted()
            == producer.accepted().push(producer.pending()->0),
{
    if accepted && producer.pending() is Some {
        assert(producer.fragments.take(producer.sent as int + 1) == producer.fragments.take(
            producer.sent as int,
        ).push(producer.fragments[producer.sent as int]));
    }
}

} // verus!
