//! The protocol of a wrapper's resolution cell: what a call of the exported
//! function does, step by step, whoever else is calling.
//!
//! The cell starts empty. The first caller to enter is told to look the
//! original function up; callers that enter meanwhile wait. The address that
//! the lookup found is committed once and handed to every caller from then on;
//! a lookup that found nothing is fatal.
//!
//! The emitted function follows this protocol through
//! `std::sync::OnceLock::get_or_init`: to enter is to call it, the lookup is
//! its initializer, and a waiting caller is blocked inside it. What is proved
//! here is proved of the transitions below.

use vstd::prelude::*;

verus! {

/// What the cell holds.
#[derive(Debug, Clone, Copy, PartialEq, Eq, Structural)]
pub enum CellState {
    /// Nothing yet: no caller has entered.
    Empty,
    /// Nothing yet, and one caller is looking the original function up.
    Resolving,
    /// The address of the original function.
    Resolved(usize),
    /// The lookup found nothing: the process is ending.
    Failed,
}

/// What a caller is told to do.
#[derive(Debug, Clone, Copy, PartialEq, Eq, Structural)]
pub enum Step {
    /// Look the symbol up and report what was found.
    Lookup,
    /// Another caller is looking the symbol up: wait for it, then enter again.
    Wait,
    /// Hand the call to the hook, with the original function at this address.
    Invoke(usize),
    /// Emit the diagnostic and end the process.
    Abort,
}

/// What happens to the cell.
#[derive(Debug, Clone, Copy, PartialEq, Eq, Structural)]
pub enum Event {
    /// A caller enters the exported function.
    Call,
    /// The lookup returns this address; zero where there is no such symbol.
    Found(usize),
}

/// The cell after an event, and what the caller concerned is told to do.
pub open spec fn answer(state: CellState, event: Event) -> (CellState, Step) {
    match event {
        Event::Call => match state {
            CellState::Empty => (CellState::Resolving, Step::Lookup),
            CellState::Resolving => (CellState::Resolving, Step::Wait),
            CellState::Resolved(address) => (CellState::Resolved(address), Step::Invoke(address)),
            CellState::Failed => (CellState::Failed, Step::Abort),
        },
        Event::Found(address) => if address == 0 {
            (CellState::Failed, Step::Abort)
        } else {
            (CellState::Resolved(address), Step::Invoke(address))
        },
    }
}

/// A lookup returns only while one is under way.
pub open spec fn admits(state: CellState, event: Event) -> bool {
    event is Found ==> state is Resolving
}

/// The cell after a run of events.
pub open spec fn state_after(state: CellState, events: Seq<Event>) -> CellState
    decreases events.len(),
{
    if events.len() == 0 {
        state
    } else {
        answer(state_after(state, events.drop_last()), events.last()).0
    }
}

/// What the callers were told, event by event.
pub open spec fn steps_of(state: CellState, events: Seq<Event>) -> Seq<Step>
    decreases events.len(),
{
    if events.len() == 0 {
        Seq::empty()
    } else {
        steps_of(state, events.drop_last()).push(
            answer(state_after(state, events.drop_last()), events.last()).1,
        )
    }
}

/// Every event of the run is admitted by the state that it meets.
pub open spec fn well_ordered(state: CellState, events: Seq<Event>) -> bool
    decreases events.len(),
{
    events.len() > 0 ==> well_ordered(state, events.drop_last()) && admits(
        state_after(state, events.drop_last()),
        events.last(),
    )
}

/// How often a lookup was asked for.
pub open spec fn lookups(steps: Seq<Step>) -> nat
    decreases steps.len(),
{
    if steps.len() == 0 {
        0
    } else {
        lookups(steps.drop_last()) + if steps.last() is Lookup {
            1nat
        } else {
            0nat
        }
    }
}

/// How often the hook was invoked.
pub open spec fn invocations(steps: Seq<Step>) -> nat
    decreases steps.len(),
{
    if steps.len() == 0 {
        0
    } else {
        invocations(steps.drop_last()) + if steps.last() is Invoke {
            1nat
        } else {
            0nat
        }
    }
}

/// `calls` calls one after another: the first enters and finds the original
/// function at `address`, every later one enters.
pub open spec fn calls_in_turn(address: usize, calls: nat) -> Seq<Event>
    decreases calls,
{
    if calls == 0 {
        Seq::empty()
    } else if calls == 1 {
        seq![Event::Call, Event::Found(address)]
    } else {
        calls_in_turn(address, (calls - 1) as nat).push(Event::Call)
    }
}

/// A wrapper's resolution cell.
#[derive(Debug, Clone, Copy, PartialEq, Eq)]
pub struct ResolutionCell {
    state: CellState,
}

impl View for ResolutionCell {
    type V = CellState;

    closed spec fn view(&self) -> CellState {
        self.state
    }
}

impl ResolutionCell {
    /// The cell as the process starts: empty.
    pub fn new() -> (cell: Self)
        ensures
            cell@ == CellState::Empty,
    {
        ResolutionCell { state: CellState::Empty }
    }

    /// What the cell holds.
    pub fn state(&self) -> (state: CellState)
        ensures
            state == self@,
    {
        self.state
    }

    /// A caller enters the exported function.
    pub fn enter(&mut self) -> (step: Step)
        ensures
            (final(self)@, step) == answer(old(self)@, Event::Call),
    {
        match self.state {
            CellState::Empty => {
                self.state = CellState::Resolving;
                Step::Lookup
            },
            CellState::Resolving => Step::Wait,
            CellState::Resolved(address) => Step::Invoke(address),
            CellState::Failed => Step::Abort,
        }
    }

    /// The caller that was told to look the symbol up reports the address that
    /// the lookup returned, zero where it found nothing.
    pub fn found(&mut self, address: usize) -> (step: Step)
        requires
            old(self)@ is Resolving,
        ensures
            (final(self)@, step) == answer(old(self)@, Event::Found(address)),
    {
        if address == 0 {
            self.state = CellState::Failed;
            Step::Abort
        } else {
            self.state = CellState::Resolved(address);
            Step::Invoke(address)
        }
    }
}

/// What holds of every well-ordered run from an empty cell: the lookup was
/// asked for once, by the first event; nobody was handed a null address; and
/// whoever was told to invoke the hook was handed the address that the cell
/// holds.
pub open spec fn run_invariant(events: Seq<Event>) -> bool {
    let state = state_after(CellState::Empty, events);
    let steps = steps_of(CellState::Empty, events);
    &&& steps.len() == events.len()
    &&& lookups(steps) == if events.len() == 0 {
        0nat
    } else {
        1nat
    }
    &&& state is Empty <==> events.len() == 0
    &&& forall|i: int|
        0 <= i < steps.len() ==> (#[trigger] steps[i] matches Step::Invoke(address) ==> address != 0
            && state == CellState::Resolved(address))
}

/// However the callers and the lookup interleave, the lookup is asked for
/// exactly once, nobody is handed a null address, and everybody who invokes
/// the hook is handed the one address that the cell holds.
pub proof fn lemma_one_lookup(events: Seq<Event>)
    requires
        well_ordered(CellState::Empty, events),
    ensures
        run_invariant(events),
    decreases events.len(),
{
    if events.len() > 0 {
        let shorter = events.drop_last();
        lemma_one_lookup(shorter);
        let before = steps_of(CellState::Empty, shorter);
        let steps = steps_of(CellState::Empty, events);
        assert(steps.drop_last() == before);
        assert forall|i: int| 0 <= i < steps.len() - 1 implies steps[i] == before[i] by {}
    }
}

/// Once the cell holds an address it holds it for good: whatever happens
/// afterwards, the cell keeps the address, and every caller that enters is
/// told to invoke the hook with it.
pub proof fn lemma_resolved_for_good(address: usize, events: Seq<Event>)
    requires
        well_ordered(CellState::Resolved(address), events),
    ensures
        state_after(CellState::Resolved(address), events) == CellState::Resolved(address),
        steps_of(CellState::Resolved(address), events).len() == events.len(),
        forall|i: int|
            0 <= i < events.len() ==> #[trigger] steps_of(CellState::Resolved(address), events)[i]
                == Step::Invoke(address),
    decreases events.len(),
{
    if events.len() > 0 {
        let shorter = events.drop_last();
        lemma_resolved_for_good(address, shorter);
        let before = steps_of(CellState::Resolved(address), shorter);
        let steps = steps_of(CellState::Resolved(address), events);
        assert(steps.drop_last() == before);
        assert forall|i: int| 0 <= i < steps.len() - 1 implies steps[i] == before[i] by {}
    }
}

/// Any two callers that invoke the hook are handed the same address.
pub proof fn lemma_same_address(events: Seq<Event>, i: int, j: int)
    requires
        well_ordered(CellState::Empty, events),
        0 <= i < events.len(),
        0 <= j < events.len(),
        steps_of(CellState::Empty, events)[i] is Invoke,
        steps_of(CellState::Empty, events)[j] is Invoke,
    ensures
        steps_of(CellState::Empty, events)[i] == steps_of(CellState::Empty, events)[j],
{
    lemma_one_lookup(events);
}

/// However often the exported function is called in turn, the original
/// function is looked up once, on the first call, and the hook is invoked once
/// for every call, with the address that was found.
pub proof fn lemma_calls_in_turn(address: usize, calls: nat)
    requires
        address != 0,
        calls >= 1,
    ensures
        well_ordered(CellState::Empty, calls_in_turn(address, calls)),
        state_after(CellState::Empty, calls_in_turn(address, calls)) == CellState::Resolved(
            address,
        ),
        lookups(steps_of(CellState::Empty, calls_in_turn(address, calls))) == 1,
        invocations(steps_of(CellState::Empty, calls_in_turn(address, calls))) == calls,
    decreases calls,
{
    let events = calls_in_turn(address, calls);
    let shorter = events.drop_last();
    let steps = steps_of(CellState::Empty, events);
    if calls == 1 {
        let first = seq![Event::Call];
        assert(shorter == first);
        assert(first.drop_last() == Seq::<Event>::empty());
        assert(state_after(CellState::Empty, first.drop_last()) == CellState::Empty);
        assert(state_after(CellState::Empty, first) == CellState::Resolving);
        assert(well_ordered(CellState::Empty, first.drop_last()));
        assert(well_ordered(CellState::Empty, first));
        assert(steps_of(CellState::Empty, first.drop_last()) == Seq::<Step>::empty());
        assert(steps_of(CellState::Empty, first) == seq![Step::Lookup]);
        assert(steps == seq![Step::Lookup, Step::Invoke(address)]);
        assert(steps.drop_last() == seq![Step::Lookup]);
        assert(seq![Step::Lookup].drop_last() == Seq::<Step>::empty());
        assert(lookups(Seq::<Step>::empty()) == 0 && invocations(Seq::<Step>::empty()) == 0);
        assert(lookups(seq![Step::Lookup]) == 1 && invocations(seq![Step::Lookup]) == 0);
    } else {
        assert(shorter == calls_in_turn(address, (calls - 1) as nat));
        lemma_calls_in_turn(address, (calls - 1) as nat);
        assert(steps.drop_last() == steps_of(CellState::Empty, shorter));
    }
}

} // verus!
