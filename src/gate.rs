//! The guard that lets the plugin loading pass run once per process.
//!
//! Callers that arrive while the pass runs are told to wait; once it is over
//! every caller sees the one outcome it had, and a failure is never retried.
use vstd::prelude::*;

verus! {

/// Where the one-time loading pass stands.
#[derive(Clone, Copy, Debug, PartialEq, Eq, Structural)]
pub enum GateState {
    /// No caller has arrived yet.
    Uninitialized,
    /// One caller is running the pass.
    InProgress,
    /// The pass is over, with this outcome (`true` for success).
    Ready(bool),
}

/// What an arriving caller is to do.
#[derive(Clone, Copy, Debug, PartialEq, Eq, Structural)]
pub enum GateAction {
    /// Run the loading pass, then report its outcome.
    RunPass,
    /// Another caller is running the pass: wait for it and ask again.
    Wait,
    /// The pass is over, with this outcome.
    Done(bool),
}

/// The answer an arriving caller gets, and the state afterwards.
pub open spec fn arrive(s: GateState) -> (GateState, GateAction) {
    match s {
        GateState::Uninitialized => (GateState::InProgress, GateAction::RunPass),
        GateState::InProgress => (GateState::InProgress, GateAction::Wait),
        GateState::Ready(b) => (GateState::Ready(b), GateAction::Done(b)),
    }
}

/// The state after the pass reports `success`; a report while no
/// pass runs changes nothing.
pub open spec fn report(s: GateState, success: bool) -> GateState {
    match s {
        GateState::InProgress => GateState::Ready(success),
        _ => s,
    }
}

/// One thing that happens at the guard.
pub enum GateEvent {
    /// A caller arrives.
    Arrive,
    /// The running pass reports its outcome.
    Report(bool),
}

/// The state after a sequence of events.
pub open spec fn state_after(s: GateState, evs: Seq<GateEvent>) -> GateState
    decreases evs.len(),
{
    if evs.len() == 0 {
        s
    } else {
        let before = state_after(s, evs.drop_last());
        match evs.last() {
            GateEvent::Arrive => arrive(before).0,
            GateEvent::Report(b) => report(before, b),
        }
    }
}

/// The answers the arriving callers got, in order.
pub open spec fn answers(s: GateState, evs: Seq<GateEvent>) -> Seq<GateAction>
    decreases evs.len(),
{
    if evs.len() == 0 {
        Seq::empty()
    } else {
        let before = answers(s, evs.drop_last());
        match evs.last() {
            GateEvent::Arrive => before.push(arrive(state_after(s, evs.drop_last())).1),
            GateEvent::Report(_) => before,
        }
    }
}

/// How many answers tell a caller to run the pass.
pub open spec fn passes(acts: Seq<GateAction>) -> nat
    decreases acts.len(),
{
    if acts.len() == 0 {
        0
    } else {
        passes(acts.drop_last()) + if acts.last() == GateAction::RunPass {
            1nat
        } else {
            0nat
        }
    }
}

/// Whether some caller arrives among `evs`.
pub open spec fn someone_arrives(evs: Seq<GateEvent>) -> bool {
    exists|i: int| 0 <= i < evs.len() && evs[i] is Arrive
}

proof fn lemma_arrival_history(evs: Seq<GateEvent>)
    ensures
        state_after(GateState::Uninitialized, evs) == GateState::Uninitialized <==> !someone_arrives(evs),
        passes(answers(GateState::Uninitialized, evs)) == if someone_arrives(evs) {
            1nat
        } else {
            0nat
        },
        state_after(GateState::Uninitialized, evs) matches GateState::Ready(b) ==> forall|i: int|
            0 <= i < answers(GateState::Uninitialized, evs).len() && answers(
                GateState::Uninitialized,
                evs,
            )[i] is Done ==> answers(GateState::Uninitialized, evs)[i] == GateAction::Done(b),
        !(state_after(GateState::Uninitialized, evs) is Ready) ==> forall|i: int|
            0 <= i < answers(GateState::Uninitialized, evs).len() ==> !(answers(
                GateState::Uninitialized,
                evs,
            )[i] is Done),
    decreases evs.len(),
{
    let u = GateState::Uninitialized;
    if evs.len() > 0 {
        let prev = evs.drop_last();
        lemma_arrival_history(prev);
        let a0 = answers(u, prev);
        let a1 = answers(u, evs);
        assert(someone_arrives(evs) <==> someone_arrives(prev) || evs.last() is Arrive) by {
            if someone_arrives(prev) {
                let i = choose|i: int| 0 <= i < prev.len() && prev[i] is Arrive;
                assert(evs[i] is Arrive);
            }
            if evs.last() is Arrive {
                assert(evs[evs.len() - 1] is Arrive);
            }
            if someone_arrives(evs) {
                let i = choose|i: int| 0 <= i < evs.len() && evs[i] is Arrive;
                if i < evs.len() - 1 {
                    assert(prev[i] is Arrive);
                }
            }
        }
        match evs.last() {
            GateEvent::Arrive => {
                assert(a1.drop_last() =~= a0);
            },
            GateEvent::Report(_) => {
                assert(a1 == a0);
            },
        }
    }
}

/// However many callers arrive, and in whatever order with the report of
/// the pass, exactly one of them is told to run the loading pass, and every
/// caller that is told the outcome is told the same one.
pub proof fn lemma_single_pass(evs: Seq<GateEvent>)
    requires
        someone_arrives(evs),
    ensures
        passes(answers(GateState::Uninitialized, evs)) == 1,
        forall|i: int, j: int|
            0 <= i < answers(GateState::Uninitialized, evs).len() && 0 <= j < answers(
                GateState::Uninitialized,
                evs,
            ).len() && answers(GateState::Uninitialized, evs)[i] is Done && answers(
                GateState::Uninitialized,
                evs,
            )[j] is Done ==> answers(GateState::Uninitialized, evs)[i] == answers(
                GateState::Uninitialized,
                evs,
            )[j],
{
    lemma_arrival_history(evs);
}

/// The once-per-process guard in front of the plugin loading pass.
pub struct InitGate {
    state: GateState,
}

impl InitGate {
    pub closed spec fn view(&self) -> GateState {
        self.state
    }

    /// A guard no caller has reached.
    pub fn new() -> (r: Self)
        ensures
            r.view() == GateState::Uninitialized,
    {
        InitGate { state: GateState::Uninitialized }
    }

    /// Where the pass stands.
    pub fn state(&self) -> (r: GateState)
        ensures
            r == self.view(),
    {
        self.state
    }

    /// A caller arrives: the first is told to run the pass, those that come
    /// while it runs to wait, and those after it the outcome.
    pub fn arrive(&mut self) -> (r: GateAction)
        ensures
            (final(self).view(), r) == arrive(old(self).view()),
    {
        match self.state {
            GateState::Uninitialized => {
                self.state = GateState::InProgress;
                GateAction::RunPass
            },
            GateState::InProgress => GateAction::Wait,
            GateState::Ready(b) => GateAction::Done(b),
        }
    }

    /// The running pass reports its outcome, which is kept for good.
    pub fn report(&mut self, success: bool)
        ensures
            final(self).view() == report(old(self).view(), success),
    {
        if self.state == GateState::InProgress {
            self.state = GateState::Ready(success);
        }
    }

    /// The outcome of the pass, once it is over.
    pub fn outcome(&self) -> (r: Option<bool>)
        ensures
            r is None <==> !(self.view() is Ready),
            r matches Some(b) ==> self.view() == GateState::Ready(b),
    {
        match self.state {
            GateState::Ready(b) => Some(b),
            _ => None,
        }
    }
}

} // verus!
