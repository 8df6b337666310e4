//! The dispatcher: a bounded window of probes in flight, and the overall
//! result folded from their completions.
//!
//! The dispatcher decides; its driver performs. The driver awaits what
//! [`Dispatcher::awaits`] names, then reports what happened with
//! [`Dispatcher::step`].

use crate::aggregate::{all_success, fold_step, lemma_all_success_push};
use vstd::prelude::*;

verus! {

/// Where the dispatcher stands.
#[derive(Clone, Copy, Debug, PartialEq, Eq, Structural)]
pub enum Phase {
    /// No item has arrived yet.
    Idle,
    /// Items are admitted as the window allows.
    Streaming,
    /// The input has ended; probes are still in flight.
    Draining,
    /// The input has ended and every probe has completed.
    Done,
}

/// What the driver observed.
#[derive(Clone, Copy, Debug, PartialEq, Eq, Structural)]
pub enum Event {
    /// The next item was taken from the queue and its probe started.
    Admitted,
    /// The queue reported the end of the input.
    Exhausted,
    /// A probe in flight completed, with or without success.
    Completed(bool),
}

/// What the driver should wait for next.
#[derive(Clone, Copy, Debug, PartialEq, Eq, Structural)]
pub enum Wait {
    /// The next item, or the end of the input: nothing is in flight.
    Item,
    /// Whichever comes first: the next item or a completion.
    Either,
    /// A completion: the window is full, or the input has ended.
    Completion,
    /// Nothing: the run is over.
    Nothing,
}

/// Why an event was refused.
#[derive(Clone, Copy, Debug, PartialEq, Eq, Structural)]
pub enum Rejection {
    /// An admission while every slot of the window is taken.
    WindowFull,
    /// An admission, or a second end of input, after the input has ended.
    InputClosed,
    /// A completion while no probe is in flight.
    NothingInFlight,
}

/// Mathematical value of a [`Dispatcher`]: the window size, the phase, how
/// many items were admitted, and the success of each completed probe in
/// completion order.
pub struct DispatchView {
    pub concurrency: nat,
    pub phase: Phase,
    pub admitted: nat,
    pub outcomes: Seq<bool>,
}

impl DispatchView {
    /// The state before anything happened.
    pub open spec fn initial(concurrency: nat) -> DispatchView {
        DispatchView { concurrency, phase: Phase::Idle, admitted: 0, outcomes: Seq::empty() }
    }

    /// Probes admitted and not yet completed.
    pub open spec fn in_flight(self) -> int {
        self.admitted - self.outcomes.len()
    }

    /// The overall result over the probes completed so far.
    pub open spec fn overall(self) -> bool {
        all_success(self.outcomes)
    }

    /// Whether the input has ended.
    pub open spec fn closed(self) -> bool {
        self.phase is Draining || self.phase is Done
    }

    /// What every reachable state satisfies.
    pub open spec fn wf(self) -> bool {
        &&& self.concurrency >= 1
        &&& 0 <= self.in_flight() <= self.concurrency
        &&& (self.phase is Idle ==> self.admitted == 0)
        &&& (self.phase is Draining ==> self.in_flight() > 0)
        &&& (self.phase is Done ==> self.in_flight() == 0)
    }

    /// Why `event` cannot happen in this state, if it cannot.
    pub open spec fn refusal(self, event: Event) -> Option<Rejection> {
        match event {
            Event::Admitted => if self.closed() {
                Some(Rejection::InputClosed)
            } else if self.in_flight() >= self.concurrency {
                Some(Rejection::WindowFull)
            } else {
                None
            },
            Event::Exhausted => if self.closed() {
                Some(Rejection::InputClosed)
            } else {
                None
            },
            Event::Completed(_) => if self.in_flight() <= 0 {
                Some(Rejection::NothingInFlight)
            } else {
                None
            },
        }
    }

    /// The state after `event`, for an event that is not refused.
    pub open spec fn apply(self, event: Event) -> DispatchView {
        match event {
            Event::Admitted => DispatchView {
                phase: Phase::Streaming,
                admitted: self.admitted + 1,
                ..self
            },
            Event::Exhausted => DispatchView {
                phase: if self.in_flight() == 0 {
                    Phase::Done
                } else {
                    Phase::Draining
                },
                ..self
            },
            Event::Completed(success) => DispatchView {
                phase: if self.phase is Draining && self.in_flight() == 1 {
                    Phase::Done
                } else {
                    self.phase
                },
                outcomes: self.outcomes.push(success),
                ..self
            },
        }
    }

    /// The state after `event`: unchanged where the event is refused.
    pub open spec fn next(self, event: Event) -> DispatchView {
        if self.refusal(event) is None {
            self.apply(event)
        } else {
            self
        }
    }

    /// The state after a whole history of events, starting from this one.
    pub open spec fn after(self, events: Seq<Event>) -> DispatchView
        decreases events.len(),
    {
        if events.len() == 0 {
            self
        } else {
            self.after(events.drop_last()).next(events.last())
        }
    }

    /// What the driver should wait for in this state.
    pub open spec fn awaits(self) -> Wait {
        match self.phase {
            Phase::Done => Wait::Nothing,
            Phase::Draining => Wait::Completion,
            Phase::Idle => Wait::Item,
            Phase::Streaming => if self.in_flight() == 0 {
                Wait::Item
            } else if self.in_flight() >= self.concurrency {
                Wait::Completion
            } else {
                Wait::Either
            },
        }
    }
}

/// Runs up to `concurrency` probes at a time and folds their outcomes.
pub struct Dispatcher {
    concurrency: usize,
    in_flight: usize,
    phase: Phase,
    overall: bool,
    admitted: Ghost<nat>,
    outcomes: Ghost<Seq<bool>>,
}

impl View for Dispatcher {
    type V = DispatchView;

    closed spec fn view(&self) -> DispatchView {
        DispatchView {
            concurrency: self.concurrency as nat,
            phase: self.phase,
            admitted: self.admitted@,
            outcomes: self.outcomes@,
        }
    }
}

impl Dispatcher {
    #[verifier::type_invariant]
    spec fn inv(self) -> bool {
        &&& self@.wf()
        &&& self.in_flight == self@.in_flight()
        &&& self.overall == self@.overall()
    }

    /// A dispatcher with a window of `concurrency` probes; none for a window
    /// of zero.
    pub fn new(concurrency: usize) -> (made: Option<Dispatcher>)
        ensures
            made is Some <==> concurrency >= 1,
            made matches Some(d) ==> d@ == DispatchView::initial(concurrency as nat),
    {
        if concurrency == 0 {
            None
        } else {
            Some(
                Dispatcher {
                    concurrency,
                    in_flight: 0,
                    phase: Phase::Idle,
                    overall: true,
                    admitted: Ghost(0),
                    outcomes: Ghost(Seq::empty()),
                },
            )
        }
    }

    /// The size of the window.
    pub fn concurrency(&self) -> (n: usize)
        ensures
            n == self@.concurrency,
            n >= 1,
    {
        proof {
            use_type_invariant(self);
        }
        self.concurrency
    }

    /// The number of probes in flight; never more than the window holds.
    pub fn in_flight(&self) -> (n: usize)
        ensures
            n == self@.in_flight(),
            n <= self@.concurrency,
            self@.wf(),
    {
        proof {
            use_type_invariant(self);
        }
        self.in_flight
    }

    /// The current phase.
    pub fn phase(&self) -> (phase: Phase)
        ensures
            phase == self@.phase,
            self@.wf(),
    {
        proof {
            use_type_invariant(self);
        }
        self.phase
    }

    /// What the driver should wait for next.
    pub fn awaits(&self) -> (wait: Wait)
        ensures
            wait == self@.awaits(),
            self@.wf(),
    {
        proof {
            use_type_invariant(self);
        }
        match self.phase {
            Phase::Done => Wait::Nothing,
            Phase::Draining => Wait::Completion,
            Phase::Idle => Wait::Item,
            Phase::Streaming => {
                if self.in_flight == 0 {
                    Wait::Item
                } else if self.in_flight >= self.concurrency {
                    Wait::Completion
                } else {
                    Wait::Either
                }
            },
        }
    }

    /// The overall result, once the run is over: whether every probe
    /// succeeded. By then every admitted probe has completed.
    pub fn result(&self) -> (overall: Option<bool>)
        ensures
            overall is Some <==> self@.phase is Done,
            overall matches Some(v) ==> {
                &&& v == all_success(self@.outcomes)
                &&& self@.outcomes.len() == self@.admitted
            },
    {
        proof {
            use_type_invariant(self);
        }
        match self.phase {
            Phase::Done => Some(self.overall),
            _ => None,
        }
    }

    /// Takes in what the driver observed. An event that cannot happen in the
    /// current state is refused and changes nothing; any other moves the
    /// dispatcher on and tells the driver what to wait for next.
    pub fn step(&mut self, event: Event) -> (told: Result<Wait, Rejection>)
        ensures
            final(self)@ == old(self)@.next(event),
            final(self)@.wf(),
            told == match old(self)@.refusal(event) {
                Some(why) => Err::<Wait, Rejection>(why),
                None => Ok(final(self)@.awaits()),
            },
    {
        proof {
            use_type_invariant(&*self);
        }
        let closed = match self.phase {
            Phase::Draining | Phase::Done => true,
            _ => false,
        };
        match event {
            Event::Admitted => {
                if closed {
                    return Err(Rejection::InputClosed);
                }
                if self.in_flight >= self.concurrency {
                    return Err(Rejection::WindowFull);
                }
                *self = Dispatcher {
                    concurrency: self.concurrency,
                    in_flight: self.in_flight + 1,
                    phase: Phase::Streaming,
                    overall: self.overall,
                    admitted: Ghost(self.admitted@ + 1),
                    outcomes: self.outcomes,
                };
            },
            Event::Exhausted => {
                if closed {
                    return Err(Rejection::InputClosed);
                }
                *self = Dispatcher {
                    concurrency: self.concurrency,
                    in_flight: self.in_flight,
                    phase: if self.in_flight == 0 {
                        Phase::Done
                    } else {
                        Phase::Draining
                    },
                    overall: self.overall,
                    admitted: self.admitted,
                    outcomes: self.outcomes,
                };
            },
            Event::Completed(success) => {
                if self.in_flight == 0 {
                    return Err(Rejection::NothingInFlight);
                }
                proof {
                    lemma_all_success_push(self.outcomes@, success);
                }
                *self = Dispatcher {
                    concurrency: self.concurrency,
                    in_flight: self.in_flight - 1,
                    phase: if closed && self.in_flight == 1 {
                        Phase::Done
                    } else {
                        self.phase
                    },
                    overall: fold_step(self.overall, success),
                    admitted: self.admitted,
                    outcomes: Ghost(self.outcomes@.push(success)),
                };
            },
        }
        Ok(self.awaits())
    }
}

/// Every step keeps the state well formed, whether the event is accepted or
/// refused.
pub proof fn lemma_next_keeps_wf(state: DispatchView, event: Event)
    requires
        state.wf(),
    ensures
        state.next(event).wf(),
{
}

/// At every instant the number of probes in flight is at most the
/// configured concurrency, whatever the history of events.
pub proof fn law_window_never_exceeded(concurrency: nat, events: Seq<Event>)
    requires
        concurrency >= 1,
    ensures
        DispatchView::initial(concurrency).after(events).wf(),
        DispatchView::initial(concurrency).after(events).concurrency == concurrency,
        0 <= DispatchView::initial(concurrency).after(events).in_flight() <= concurrency,
    decreases events.len(),
{
    if events.len() > 0 {
        law_window_never_exceeded(concurrency, events.drop_last());
        lemma_next_keeps_wf(
            DispatchView::initial(concurrency).after(events.drop_last()),
            events.last(),
        );
    }
}

/// Every admitted item is probed exactly once: at every instant the admitted
/// items are those completed plus those in flight, and once the run is over
/// there is one outcome for each admitted item.
pub proof fn law_one_outcome_per_item(concurrency: nat, events: Seq<Event>)
    requires
        concurrency >= 1,
    ensures
        ({
            let reached = DispatchView::initial(concurrency).after(events);
            &&& reached.admitted == reached.outcomes.len() + reached.in_flight()
            &&& reached.outcomes.len() <= reached.admitted
            &&& (reached.phase is Done ==> reached.outcomes.len() == reached.admitted)
        }),
{
    law_window_never_exceeded(concurrency, events);
}

/// A run that is over stays over: the overall result is fixed, and no
/// event is accepted any more.
pub proof fn law_done_is_terminal(state: DispatchView, event: Event)
    requires
        state.wf(),
        state.phase is Done,
    ensures
        state.refusal(event) is Some,
        state.next(event) == state,
{
}

} // verus!
