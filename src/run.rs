use vstd::prelude::*;

use crate::pipeline::{
    action_for, is_stopped, matte_taken, next_phase, state_after_event, Action, Event, Failure, Phase,
    PipelineConfig, Stage, StopReason,
};
use crate::recurrent::InitialRecurrentState;

verus! {

/// The phase reached from `phase` after `events`, one by one.
pub open spec fn phase_after<S>(config: PipelineConfig, phase: Phase, events: Seq<Event<S>>) -> Phase
    decreases events.len(),
{
    if events.len() == 0 {
        phase
    } else {
        phase_after(config, next_phase(config, phase, events[0]), events.drop_first())
    }
}

/// A failure is final: reported in any running phase it stops the session
/// with that failure, and whatever is reported afterwards the session stays
/// stopped and asks for nothing but to halt, so no later frame is emitted.
pub proof fn lemma_failure_is_final<S>(config: PipelineConfig, phase: Phase, failure: Failure, events: Seq<Event<S>>)
    requires
        !is_stopped(phase),
    ensures
        next_phase(config, phase, Event::<S>::Failed(failure)) == Phase::Stopped(StopReason::Error(failure)),
        phase_after(config, Phase::Stopped(StopReason::Error(failure)), events) == Phase::Stopped(
            StopReason::Error(failure),
        ),
        action_for(phase_after(config, Phase::Stopped(StopReason::Error(failure)), events)) == Action::Halt,
    decreases events.len(),
{
    if events.len() > 0 {
        lemma_failure_is_final(config, phase, failure, events.drop_first());
    }
}

/// The sink is asked to take a frame only right after a usable matte was
/// composited: every step into the emitting stage takes a matte.
pub proof fn lemma_emit_follows_composite<S>(config: PipelineConfig, phase: Phase, event: Event<S>)
    requires
        phase != Phase::Steady(Stage::Emit),
        action_for(next_phase(config, phase, event)) == Action::Emit,
    ensures
        matte_taken(config, phase, event),
{
}

/// The recurrent state after `events`, one by one.
pub open spec fn state_after<S>(
    config: PipelineConfig,
    phase: Phase,
    state: InitialRecurrentState<S>,
    events: Seq<Event<S>>,
) -> InitialRecurrentState<S>
    decreases events.len(),
{
    if events.len() == 0 {
        state
    } else {
        state_after(
            config,
            next_phase(config, phase, events[0]),
            state_after_event(config, phase, state, events[0]),
            events.drop_first(),
        )
    }
}

/// How many frames of `events` reach the engine's answer.
pub open spec fn mattes_taken<S>(config: PipelineConfig, phase: Phase, events: Seq<Event<S>>) -> nat
    decreases events.len(),
{
    if events.len() == 0 {
        0
    } else {
        (if matte_taken(config, phase, events[0]) {
            1nat
        } else {
            0nat
        }) + mattes_taken(config, next_phase(config, phase, events[0]), events.drop_first())
    }
}

/// Every matte taken during `events` carries `f` of the state the pipeline
/// held when it was asked for it.
pub open spec fn engine_follows<S>(
    config: PipelineConfig,
    phase: Phase,
    state: InitialRecurrentState<S>,
    events: Seq<Event<S>>,
    f: spec_fn(InitialRecurrentState<S>) -> InitialRecurrentState<S>,
) -> bool
    decreases events.len(),
{
    if events.len() == 0 {
        true
    } else {
        &&& matte_taken(config, phase, events[0]) ==> state_after_event(config, phase, state, events[0]) == f(state)
        &&& engine_follows(
            config,
            next_phase(config, phase, events[0]),
            state_after_event(config, phase, state, events[0]),
            events.drop_first(),
            f,
        )
    }
}

/// `f` applied `n` times to `s`.
pub open spec fn iterate<T>(f: spec_fn(T) -> T, n: nat, s: T) -> T
    decreases n,
{
    if n == 0 {
        s
    } else {
        f(iterate(f, (n - 1) as nat, s))
    }
}

proof fn lemma_iterate_shift<T>(f: spec_fn(T) -> T, n: nat, s: T)
    ensures
        iterate(f, n, f(s)) == iterate(f, n + 1, s),
    decreases n,
{
    assert(iterate(f, n + 1, s) == f(iterate(f, n, s)));
    if n > 0 {
        lemma_iterate_shift(f, (n - 1) as nat, s);
        assert(iterate(f, n, f(s)) == f(iterate(f, (n - 1) as nat, f(s))));
    } else {
        assert(iterate(f, 0, s) == s);
    }
}

/// State threading: when the engine answers each frame with `f` of the state
/// it was handed, the state after a run is `f` applied to the starting state
/// once per frame that reached the engine's answer, in order; no event
/// in between resets or skips it.
pub proof fn lemma_state_threading<S>(
    config: PipelineConfig,
    phase: Phase,
    state: InitialRecurrentState<S>,
    events: Seq<Event<S>>,
    f: spec_fn(InitialRecurrentState<S>) -> InitialRecurrentState<S>,
)
    requires
        engine_follows(config, phase, state, events, f),
    ensures
        state_after(config, phase, state, events) == iterate(f, mattes_taken(config, phase, events), state),
    decreases events.len(),
{
    if events.len() > 0 {
        let e = events[0];
        let next = next_phase(config, phase, e);
        let s1 = state_after_event(config, phase, state, e);
        let rest = events.drop_first();
        lemma_state_threading(config, next, s1, rest, f);
        if matte_taken(config, phase, e) {
            lemma_iterate_shift(f, mattes_taken(config, next, rest), state);
        } else {
            assert(s1 == state) by {
                match e {
                    Event::Matted(m) => {},
                    _ => {},
                }
            }
        }
    }
}

} // verus!
