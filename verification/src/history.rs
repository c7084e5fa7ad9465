//! What holds of a bridge over its whole life, whatever the callers and the
//! worker do and in whatever order their steps fall.

use vstd::prelude::*;
use crate::bridge::{BridgeView, InFlight, RequestView};

verus! {

/// One step taken on a bridge, by a caller or by the worker.
pub enum Step<R> {
    /// A caller submits a request.
    Submit(RequestView<R>),
    /// The worker reports whether its model loaded.
    Start(bool),
    /// The worker asks for its next batch.
    Take,
    /// The worker hands in this many sentiments.
    Finish(nat),
    /// The worker is gone.
    Close,
}

/// A bridge together with the record of what has passed through it.
pub struct History<R> {
    /// The bridge as it is now.
    pub bridge: BridgeView<R>,
    /// The requests the queue accepted, in the order submitted.
    pub admitted: Seq<RequestView<R>>,
    /// The requests whose batch was given to the worker, in the order given.
    pub served: Seq<RequestView<R>>,
    /// The answers the bridge accepted, in the order given: how many
    /// sentiments, and the reply handle they were paired with.
    pub answered: Seq<InFlight<R>>,
    /// The requests that still waited in the queue when the worker went
    /// away.
    pub orphaned: Seq<RequestView<R>>,
}

impl<R> History<R> {
    /// The history of a new bridge.
    pub open spec fn begin(capacity: nat) -> History<R> {
        History {
            bridge: BridgeView::fresh(capacity),
            admitted: Seq::empty(),
            served: Seq::empty(),
            answered: Seq::empty(),
            orphaned: Seq::empty(),
        }
    }

    /// The history after one more step.
    pub open spec fn step(self, step: Step<R>) -> History<R> {
        match step {
            Step::Submit(request) => History {
                bridge: self.bridge.submit(request),
                admitted: if self.bridge.admits() {
                    self.admitted.push(request)
                } else {
                    self.admitted
                },
                ..self
            },
            Step::Start(loaded) => History { bridge: self.bridge.start(loaded), ..self },
            Step::Take => History {
                bridge: self.bridge.take(),
                served: if self.bridge.ready() {
                    self.served.push(self.bridge.pending.first())
                } else {
                    self.served
                },
                ..self
            },
            Step::Finish(sentiments) => History {
                bridge: self.bridge.finish(sentiments),
                answered: if self.bridge.accepts(sentiments) {
                    self.answered.push(self.bridge.in_flight.unwrap())
                } else {
                    self.answered
                },
                ..self
            },
            Step::Close => History {
                bridge: self.bridge.close(),
                orphaned: self.orphaned + self.bridge.pending,
                ..self
            },
        }
    }

    /// The history after a run of steps.
    pub open spec fn after(self, steps: Seq<Step<R>>) -> History<R>
        decreases steps.len(),
    {
        if steps.len() == 0 {
            self
        } else {
            self.after(steps.drop_last()).step(steps.last())
        }
    }

    /// The order of submission is the order of service: the requests the
    /// queue accepted are those served, and after them those that wait or
    /// were orphaned, each run in order.
    pub open spec fn in_order(self) -> bool {
        self.admitted == self.served + self.orphaned + self.bridge.pending
    }

    /// One batch at a time: every request served but the last has been
    /// answered, and the last is either answered, or the one in flight, or
    /// left unanswered by a bridge that closed.
    pub open spec fn one_at_a_time(self) -> bool {
        &&& self.answered.len() <= self.served.len() <= self.answered.len() + 1
        &&& self.bridge.in_flight is Some ==> self.served.len() == self.answered.len() + 1
            && self.bridge.in_flight == Some(
            InFlight { size: self.served.last().texts.len(), reply: self.served.last().reply },
        )
        &&& self.bridge.in_flight is None && !self.bridge.closed ==> self.served.len()
            == self.answered.len()
    }

    /// Every answer fits its batch: the answer at a position has one
    /// sentiment for each text of the request served at that position, and
    /// is paired with the reply handle of that request.
    pub open spec fn answers_fit(self) -> bool {
        forall|i: int|
            0 <= i < self.answered.len() && i < self.served.len() ==> (
            #[trigger] self.answered[i]).size == self.served[i].texts.len()
                && self.answered[i].reply == self.served[i].reply
    }

    /// All that holds of a bridge at every moment of its life.
    pub open spec fn sound(self) -> bool {
        &&& self.bridge.bounded()
        &&& self.in_order()
        &&& self.one_at_a_time()
        &&& self.answers_fit()
        &&& self.bridge.closed || self.orphaned.len() == 0
    }
}

/// A step keeps a sound history sound.
pub proof fn step_keeps_sound<R>(history: History<R>, step: Step<R>)
    requires
        history.sound(),
    ensures
        history.step(step).sound(),
{
    let next = history.step(step);
    match step {
        Step::Submit(request) => {
            if history.bridge.admits() {
                assert(next.admitted =~= next.served + next.orphaned + next.bridge.pending);
            }
        },
        Step::Start(loaded) => {},
        Step::Take => {
            if history.bridge.ready() {
                assert(next.admitted =~= next.served + next.orphaned + next.bridge.pending);
            }
        },
        Step::Finish(sentiments) => {},
        Step::Close => {
            assert(next.admitted =~= next.served + next.orphaned + next.bridge.pending);
        },
    }
}

/// Whatever steps are taken on a new bridge, in whatever order: requests
/// are served in the order submitted, the worker holds one batch at a time,
/// and every answer has one sentiment for each text of its batch and goes to
/// the reply handle of that batch.
pub proof fn bridge_is_sound<R>(capacity: nat, steps: Seq<Step<R>>)
    ensures
        History::<R>::begin(capacity).after(steps).sound(),
    decreases steps.len(),
{
    let begin = History::<R>::begin(capacity);
    if steps.len() == 0 {
        assert(begin.admitted =~= begin.served + begin.orphaned + begin.bridge.pending);
    } else {
        bridge_is_sound::<R>(capacity, steps.drop_last());
        step_keeps_sound(begin.after(steps.drop_last()), steps.last());
    }
}

} // verus!
