//! The bookkeeping of the bridge between the callers, who submit batches of
//! text from many tasks, and the one worker that owns the classifier.
//!
//! Requests wait in a bounded queue and leave it oldest first. The worker
//! is given the texts of one request, classifies the whole batch and hands
//! in the sentiments; the bridge pairs them with the reply handle that came
//! with that request, and only then gives out the next batch. The bridge
//! never looks inside a reply handle: it keeps each one beside its batch.
//! Whoever drives the bridge holds it behind a lock; suspending a caller and
//! waking it is the driver's part, and so is sending on a reply handle.

use vstd::prelude::*;
use crate::error::Error;
use crate::sentiment::Sentiment;

verus! {

/// How many requests may wait before callers are held back.
pub const QUEUE_CAPACITY: usize = 100;

/// One batch of texts and the handle on which its sentiments are awaited.
pub struct Request<R> {
    pub texts: Vec<String>,
    pub reply: R,
}

/// What a [`Request`] holds, as mathematical values.
pub struct RequestView<R> {
    pub texts: Seq<Seq<char>>,
    pub reply: R,
}

impl<R> View for Request<R> {
    type V = RequestView<R>;

    open spec fn view(&self) -> RequestView<R> {
        RequestView { texts: self.texts.deep_view(), reply: self.reply }
    }
}

impl<R> DeepView for Request<R> {
    type V = RequestView<R>;

    open spec fn deep_view(&self) -> RequestView<R> {
        self@
    }
}

/// What became of a request handed to an open bridge.
pub enum Admission<R> {
    /// The request waits in the queue.
    Queued,
    /// The queue is full. The request comes back untouched: the caller waits
    /// for room and submits it again.
    Full(Request<R>),
}

/// The sentiments of one batch, and the handle they are to be sent on.
pub struct Delivery<R> {
    pub reply: R,
    pub sentiments: Vec<Sentiment>,
}

/// The batch the worker is classifying: how many texts it has, and the
/// handle on which their sentiments are awaited.
pub struct InFlight<R> {
    pub size: nat,
    pub reply: R,
}

/// The state of a bridge, as mathematical values.
pub struct BridgeView<R> {
    /// How many requests may wait.
    pub capacity: nat,
    /// The requests that wait, oldest first.
    pub pending: Seq<RequestView<R>>,
    /// The batch the worker is classifying, if it has one.
    pub in_flight: Option<InFlight<R>>,
    /// The worker is gone.
    pub closed: bool,
}

impl<R> BridgeView<R> {
    /// A new bridge: open, idle, nothing waiting.
    pub open spec fn fresh(capacity: nat) -> BridgeView<R> {
        BridgeView { capacity, pending: Seq::empty(), in_flight: None, closed: false }
    }

    /// No more requests wait than the capacity allows.
    pub open spec fn bounded(self) -> bool {
        self.pending.len() <= self.capacity
    }

    /// There is room for one more request.
    pub open spec fn has_room(self) -> bool {
        self.pending.len() < self.capacity
    }

    /// A submission is accepted: the bridge is open and has room.
    pub open spec fn admits(self) -> bool {
        !self.closed && self.has_room()
    }

    /// The state after a submission: an accepted request joins the end of
    /// the queue, and nothing changes otherwise.
    pub open spec fn submit(self, request: RequestView<R>) -> BridgeView<R> {
        if self.admits() {
            BridgeView { pending: self.pending.push(request), ..self }
        } else {
            self
        }
    }

    /// The state after each of the requests was submitted, in order.
    pub open spec fn submit_all(self, requests: Seq<RequestView<R>>) -> BridgeView<R>
        decreases requests.len(),
    {
        if requests.len() == 0 {
            self
        } else {
            self.submit_all(requests.drop_last()).submit(requests.last())
        }
    }

    /// The state after the worker tried to load its model: without a model
    /// there is no worker, and the bridge closes.
    pub open spec fn start(self, loaded: bool) -> BridgeView<R> {
        if loaded {
            self
        } else {
            BridgeView { closed: true, ..self }
        }
    }

    /// The worker can be given a batch: the bridge is open, the worker has
    /// none, and a request waits.
    pub open spec fn ready(self) -> bool {
        !self.closed && self.in_flight is None && self.pending.len() > 0
    }

    /// The state after the worker asked for a batch: where one is ready the
    /// oldest request leaves the queue, and its batch is in flight.
    pub open spec fn take(self) -> BridgeView<R> {
        if self.ready() {
            BridgeView {
                pending: self.pending.drop_first(),
                in_flight: Some(
                    InFlight {
                        size: self.pending.first().texts.len(),
                        reply: self.pending.first().reply,
                    },
                ),
                ..self
            }
        } else {
            self
        }
    }

    /// Sentiments are accepted: the bridge is open and they are as many as
    /// the texts of the batch in flight.
    pub open spec fn accepts(self, sentiments: nat) -> bool {
        !self.closed && self.in_flight is Some && self.in_flight.unwrap().size == sentiments
    }

    /// The state after the worker handed in sentiments: accepted ones end
    /// the batch; anything else means the worker cannot be relied on, and
    /// closes the bridge.
    pub open spec fn finish(self, sentiments: nat) -> BridgeView<R> {
        if self.accepts(sentiments) {
            BridgeView { in_flight: None, ..self }
        } else {
            BridgeView { closed: true, ..self }
        }
    }

    /// The handles that wait for sentiments: that of the batch in flight,
    /// then those of the requests in the queue, oldest first.
    pub open spec fn awaiting(self) -> Seq<R> {
        let queued = Seq::new(self.pending.len(), |i: int| self.pending[i].reply);
        match self.in_flight {
            Some(batch) => seq![batch.reply] + queued,
            None => queued,
        }
    }

    /// The state after the worker is gone: closed, with nothing waiting and
    /// nothing in flight.
    pub open spec fn close(self) -> BridgeView<R> {
        BridgeView { pending: Seq::empty(), in_flight: None, closed: true, ..self }
    }
}

/// The bridge: a bounded queue of requests and what the worker is doing.
pub struct Bridge<R> {
    capacity: usize,
    pending: Vec<Request<R>>,
    in_flight: Option<(usize, R)>,
    closed: bool,
}

impl<R> View for Bridge<R> {
    type V = BridgeView<R>;

    closed spec fn view(&self) -> BridgeView<R> {
        BridgeView {
            capacity: self.capacity as nat,
            pending: self.pending.deep_view(),
            in_flight: match self.in_flight {
                Some((size, reply)) => Some(InFlight { size: size as nat, reply }),
                None => None,
            },
            closed: self.closed,
        }
    }
}

impl<R> Bridge<R> {
    /// A bridge to a worker that has just been started.
    pub fn new(capacity: usize) -> (bridge: Bridge<R>)
        ensures
            bridge@ == BridgeView::<R>::fresh(capacity as nat),
    {
        let bridge = Bridge { capacity, pending: Vec::new(), in_flight: None, closed: false };
        assert(bridge.pending.deep_view() =~= Seq::empty());
        bridge
    }

    /// Hands a request to the bridge.
    ///
    /// Once the worker is gone every submission fails. While the queue is
    /// full the request comes back, and the caller is to wait for room.
    pub fn submit(&mut self, request: Request<R>) -> (result: Result<Admission<R>, Error>)
        ensures
            final(self)@ == old(self)@.submit(request@),
            match result {
                Ok(Admission::Queued) => old(self)@.admits(),
                Ok(Admission::Full(back)) => !old(self)@.closed && !old(self)@.has_room() && back
                    == request,
                Err(e) => old(self)@.closed && e == Error::BridgeClosed,
            },
    {
        if self.closed {
            Err(Error::BridgeClosed)
        } else if self.pending.len() >= self.capacity {
            Ok(Admission::Full(request))
        } else {
            let ghost before = self.pending.deep_view();
            self.pending.push(request);
            assert(self.pending.deep_view() =~= before.push(request@));
            Ok(Admission::Queued)
        }
    }

    /// Records how the worker's start went. A worker whose model did not
    /// load is no worker: the bridge closes, and the start has failed.
    pub fn start(&mut self, loaded: bool) -> (result: Result<(), Error>)
        ensures
            final(self)@ == old(self)@.start(loaded),
            result == if loaded {
                Ok::<(), Error>(())
            } else {
                Err::<(), Error>(Error::ModelLoad)
            },
    {
        if loaded {
            Ok(())
        } else {
            self.closed = true;
            Err(Error::ModelLoad)
        }
    }

    /// Gives the worker its next batch: the texts of the oldest request, if
    /// the bridge is open, the worker has no batch and a request waits. The
    /// reply handle of the request stays with the bridge.
    pub fn take(&mut self) -> (next: Option<Vec<String>>)
        ensures
            final(self)@ == old(self)@.take(),
            match next {
                Some(texts) => old(self)@.ready() && texts.deep_view()
                    == old(self)@.pending.first().texts,
                None => !old(self)@.ready(),
            },
    {
        if self.closed || self.in_flight.is_some() || self.pending.len() == 0 {
            None
        } else {
            let ghost before = self.pending.deep_view();
            let request = self.pending.remove(0);
            assert(self.pending.deep_view() =~= before.drop_first());
            assert(request@ == before.first());
            self.in_flight = Some((request.texts.len(), request.reply));
            Some(request.texts)
        }
    }

    /// Takes the sentiments the worker found for the batch in flight.
    ///
    /// If they are one for each text of the batch, they come back unchanged
    /// beside the reply handle of that batch, and the worker is free for the
    /// next. Otherwise the worker cannot be relied on any more: the bridge
    /// closes, and the batch stays unanswered.
    pub fn finish(&mut self, sentiments: Vec<Sentiment>) -> (result: Result<Delivery<R>, Error>)
        ensures
            final(self)@ == old(self)@.finish(sentiments@.len()),
            match result {
                Ok(delivery) => old(self)@.accepts(sentiments@.len()) && delivery.sentiments
                    == sentiments && delivery.reply == old(self)@.in_flight.unwrap().reply,
                Err(e) => !old(self)@.accepts(sentiments@.len()) && e == Error::BridgeClosed,
            },
    {
        if self.closed {
            return Err(Error::BridgeClosed);
        }
        match self.in_flight.take() {
            Some((size, reply)) => {
                if size == sentiments.len() {
                    Ok(Delivery { reply, sentiments })
                } else {
                    self.in_flight = Some((size, reply));
                    self.closed = true;
                    Err(Error::BridgeClosed)
                }
            },
            None => {
                self.closed = true;
                Err(Error::BridgeClosed)
            },
        }
    }

    /// Closes the bridge when the worker is gone, and hands out every reply
    /// handle that still waits, so that each caller can be failed: that of
    /// the batch in flight first, then those in the queue, oldest first.
    pub fn close(&mut self) -> (orphans: Vec<R>)
        ensures
            final(self)@ == old(self)@.close(),
            orphans@ == old(self)@.awaiting(),
    {
        let ghost before = self@;
        let mut orphans: Vec<R> = Vec::new();
        match self.in_flight.take() {
            Some((_, reply)) => {
                orphans.push(reply);
            },
            None => {},
        }
        let mut pending: Vec<Request<R>> = Vec::new();
        std::mem::swap(&mut self.pending, &mut pending);
        self.closed = true;
        assert(self.pending.deep_view() =~= Seq::empty());
        let ghost head = orphans@;
        for request in it: pending
            invariant
                before.pending.len() == it.seq().len(),
                forall|j: int| 0 <= j < it.seq().len() ==> before.pending[j] == (
                #[trigger] it.seq()[j])@,
                orphans@.len() == head.len() + it.index(),
                forall|j: int| 0 <= j < head.len() ==> orphans@[j] == head[j],
                forall|j: int|
                    0 <= j < it.index() ==> orphans@[head.len() + j] == before.pending[j].reply,
        {
            orphans.push(request.reply);
        }
        assert(orphans@ =~= before.awaiting());
        orphans
    }

    /// How many requests wait.
    pub fn waiting(&self) -> (n: usize)
        ensures
            n == self@.pending.len(),
    {
        self.pending.len()
    }

    /// Whether the worker is classifying a batch.
    pub fn is_busy(&self) -> (b: bool)
        ensures
            b == self@.in_flight is Some,
    {
        self.in_flight.is_some()
    }

    /// Whether the worker is gone.
    pub fn is_closed(&self) -> (b: bool)
        ensures
            b == self@.closed,
    {
        self.closed
    }
}

/// From a new bridge on, no step lets more requests wait than the capacity
/// allows.
pub proof fn queue_stays_bounded<R>(
    bridge: BridgeView<R>,
    request: RequestView<R>,
    sentiments: nat,
    loaded: bool,
)
    requires
        bridge.bounded(),
    ensures
        BridgeView::<R>::fresh(bridge.capacity).bounded(),
        bridge.submit(request).bounded(),
        bridge.take().bounded(),
        bridge.finish(sentiments).bounded(),
        bridge.start(loaded).bounded(),
        bridge.close().bounded(),
{
}

/// Requests are served in the order submitted: a submission leaves every
/// request that already waits in its place, so the worker's next batch is
/// the same whether it is taken before or after the submission.
pub proof fn first_in_first_out<R>(bridge: BridgeView<R>, request: RequestView<R>)
    requires
        bridge.ready(),
        bridge.admits(),
    ensures
        bridge.submit(request).pending.first() == bridge.pending.first(),
        bridge.submit(request).pending.last() == request,
        bridge.submit(request).take() == bridge.take().submit(request),
{
    assert(bridge.pending.push(request).drop_first() =~= bridge.pending.drop_first().push(request));
}

/// What is submitted while the worker is busy changes nothing for the
/// worker.
pub proof fn submissions_leave_worker_alone<R>(
    bridge: BridgeView<R>,
    requests: Seq<RequestView<R>>,
)
    ensures
        bridge.submit_all(requests).in_flight == bridge.in_flight,
        bridge.submit_all(requests).closed == bridge.closed,
        bridge.submit_all(requests).capacity == bridge.capacity,
        bridge.pending.is_prefix_of(bridge.submit_all(requests).pending),
    decreases requests.len(),
{
    if requests.len() > 0 {
        submissions_leave_worker_alone(bridge, requests.drop_last());
    }
}

/// The worker classifies one whole batch at a time: while a batch is in
/// flight it is given no other, however many requests are submitted
/// meanwhile.
pub proof fn one_batch_at_a_time<R>(bridge: BridgeView<R>, requests: Seq<RequestView<R>>)
    requires
        bridge.in_flight is Some,
    ensures
        !bridge.submit_all(requests).ready(),
        bridge.submit_all(requests).take() == bridge.submit_all(requests),
{
    submissions_leave_worker_alone(bridge, requests);
}

/// Once a batch is taken, the only sentiments the bridge accepts are one
/// for each text of that batch, whatever is submitted meanwhile; they go to
/// the reply handle that came with the batch, and the worker is then free
/// for the next.
pub proof fn answer_fits_batch<R>(
    bridge: BridgeView<R>,
    requests: Seq<RequestView<R>>,
    sentiments: nat,
)
    requires
        bridge.ready(),
    ensures
        bridge.take().submit_all(requests).accepts(sentiments) <==> sentiments
            == bridge.pending.first().texts.len(),
        bridge.take().submit_all(requests).in_flight.unwrap().reply
            == bridge.pending.first().reply,
        bridge.take().submit_all(requests).accepts(sentiments) ==> bridge.take().submit_all(
            requests,
        ).finish(sentiments).in_flight is None && !bridge.take().submit_all(requests).finish(
            sentiments,
        ).closed,
{
    submissions_leave_worker_alone(bridge.take(), requests);
}

/// Once the bridge is closed it stays closed, admits nothing and gives the
/// worker nothing.
pub proof fn closed_for_good<R>(
    bridge: BridgeView<R>,
    request: RequestView<R>,
    sentiments: nat,
    loaded: bool,
)
    requires
        bridge.closed,
    ensures
        bridge.submit(request) == bridge,
        bridge.take() == bridge,
        bridge.finish(sentiments) == bridge,
        bridge.start(loaded) == bridge,
        bridge.close().closed,
{
}

} // verus!
