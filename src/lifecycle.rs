use vstd::prelude::*;
use crate::loader::{buffer_fits, release_pending, transition, LoadAction, LoadError, LoadEvent, LoadState};
use crate::pixels::image_samples;

verus! {

/// `states`, `events` and `actions` record a load from the moment its path was
/// accepted: `events[i]` answers `states[i]`, which then moves to
/// `states[i + 1]` and asks for `actions[i]`, as `LoadState::step` does.
pub open spec fn is_run(states: Seq<LoadState>, events: Seq<LoadEvent>, actions: Seq<LoadAction>) -> bool {
    &&& states.len() == events.len() + 1
    &&& actions.len() == events.len()
    &&& states[0] is Opening
    &&& forall|i: int|
        0 <= i < events.len() ==> #[trigger] transition(states[i], events[i], states[i + 1], actions[i])
}

/// How many times the native decoder was asked to release a handle.
pub open spec fn releases(actions: Seq<LoadAction>) -> nat
    decreases actions.len(),
{
    if actions.len() == 0 {
        0
    } else {
        releases(actions.drop_last()) + if actions.last() is Close {
            1nat
        } else {
            0nat
        }
    }
}

/// How many valid handles the native decoder handed out.
pub open spec fn handles_obtained(events: Seq<LoadEvent>) -> nat
    decreases events.len(),
{
    if events.len() == 0 {
        0
    } else {
        handles_obtained(events.drop_last()) + if events.last() == (LoadEvent::Opened {
            handle_valid: true,
        }) {
            1nat
        } else {
            0nat
        }
    }
}

proof fn lemma_run_prefix(states: Seq<LoadState>, events: Seq<LoadEvent>, actions: Seq<LoadAction>)
    requires
        is_run(states, events, actions),
        events.len() > 0,
    ensures
        is_run(states.drop_last(), events.drop_last(), actions.drop_last()),
{
    let n = events.len() - 1;
    assert forall|i: int| 0 <= i < n implies #[trigger] transition(
        states.drop_last()[i],
        events.drop_last()[i],
        states.drop_last()[i + 1],
        actions.drop_last()[i],
    ) by {
        assert(transition(states[i], events[i], states[i + 1], actions[i]));
    }
}

proof fn lemma_balance(states: Seq<LoadState>, events: Seq<LoadEvent>, actions: Seq<LoadAction>)
    requires
        is_run(states, events, actions),
    ensures
        handles_obtained(events) <= 1,
        states.last() is Opening ==> handles_obtained(events) == 0,
        releases(actions) + (if release_pending(states.last()) {
            1int
        } else {
            0int
        }) == handles_obtained(events),
    decreases events.len(),
{
    if events.len() > 0 {
        let n = events.len() - 1;
        lemma_run_prefix(states, events, actions);
        lemma_balance(states.drop_last(), events.drop_last(), actions.drop_last());
        assert(transition(states[n], events[n], states[n + 1], actions[n]));
        assert(states.drop_last().last() == states[n]);
    }
}

/// Along any run of a load, at most one handle is obtained; a release is
/// requested once for each handle obtained, but for one still in use; the
/// load finishes at most once, as the last thing it does, and when it
/// finishes every handle obtained has been released exactly once.
pub proof fn lemma_release_balance(states: Seq<LoadState>, events: Seq<LoadEvent>, actions: Seq<LoadAction>)
    requires
        is_run(states, events, actions),
    ensures
        handles_obtained(events) <= 1,
        releases(actions) + (if release_pending(states.last()) {
            1int
        } else {
            0int
        }) == handles_obtained(events),
        releases(actions) <= 1,
        states.last() is Done ==> releases(actions) == handles_obtained(events),
        forall|i: int|
            0 <= i < actions.len() && (#[trigger] actions[i] is Finish) ==> {
                &&& i == actions.len() - 1
                &&& states.last() is Done
                &&& releases(actions) == handles_obtained(events)
            },
{
    lemma_balance(states, events, actions);
    assert forall|i: int| 0 <= i < actions.len() && (#[trigger] actions[i] is Finish) implies {
        &&& i == actions.len() - 1
        &&& states.last() is Done
        &&& releases(actions) == handles_obtained(events)
    } by {
        assert(transition(states[i], events[i], states[i + 1], actions[i]));
        if i + 1 < events.len() {
            let j = i + 1;
            assert(transition(states[j], events[j], states[j + 1], actions[j]));
        }
    }
}

proof fn lemma_step_at(states: Seq<LoadState>, events: Seq<LoadEvent>, actions: Seq<LoadAction>, i: int)
    requires
        is_run(states, events, actions),
        0 <= i < events.len(),
    ensures
        transition(states[i], events[i], states[i + 1], actions[i]),
{
}

proof fn lemma_release_counted(actions: Seq<LoadAction>, k: int)
    requires
        0 <= k < actions.len(),
        actions[k] is Close,
    ensures
        releases(actions) >= 1,
    decreases actions.len(),
{
    if k < actions.len() - 1 {
        lemma_release_counted(actions.drop_last(), k);
    }
}

proof fn lemma_step_wf(s: LoadState, e: LoadEvent, t: LoadState, a: LoadAction)
    requires
        transition(s, e, t, a),
    ensures
        t.wf(),
        s.wf() ==> a.wf(),
{
    if let LoadState::Copying { width, height, len } = s {
        if let LoadState::Closing { outcome: Ok(res) } = t {
            if let LoadEvent::Copied { pixels, metadata } = e {
                assert(buffer_fits(width, height, len, pixels@.len()));
                assert(image_samples(res.image) == pixels@);
            }
        }
    }
}

/// Whenever a load finishes with an image, that image has positive width and
/// height and holds exactly three samples per pixel.
pub proof fn lemma_finished_image_wf(states: Seq<LoadState>, events: Seq<LoadEvent>, actions: Seq<LoadAction>)
    requires
        is_run(states, events, actions),
    ensures
        forall|i: int| 0 <= i < actions.len() ==> (#[trigger] actions[i]).wf(),
{
    assert forall|i: int| 0 <= i < actions.len() implies (#[trigger] actions[i]).wf() by {
        assert(transition(states[i], events[i], states[i + 1], actions[i]));
        if i > 0 {
            let j = i - 1;
            assert(transition(states[j], events[j], states[j + 1], actions[j]));
            lemma_step_wf(states[j], events[j], states[j + 1], actions[j]);
        }
        lemma_step_wf(states[i], events[i], states[i + 1], actions[i]);
    }
}

/// A load whose handle could not be opened finishes at once with
/// `OpenFailed` and never asks for a release.
pub proof fn lemma_open_failure(states: Seq<LoadState>, events: Seq<LoadEvent>, actions: Seq<LoadAction>)
    requires
        is_run(states, events, actions),
        events.len() > 0,
        events[0] == (LoadEvent::Opened { handle_valid: false }),
    ensures
        events.len() == 1,
        actions[0] == LoadAction::Finish(Err(LoadError::OpenFailed)),
        releases(actions) == 0,
{
    lemma_step_at(states, events, actions, 0);
    if events.len() > 1 {
        lemma_step_at(states, events, actions, 1);
    }
    assert(actions.drop_last().len() == 0);
    assert(releases(actions.drop_last()) == 0);
    assert(releases(actions) == releases(actions.drop_last()));
}

/// A finished load in which the decoder reported a failure (a non-zero
/// status, no buffer, or no bytes) ends with `DecodeFailed`, after exactly
/// one release of its handle.
pub proof fn lemma_decode_failure(
    states: Seq<LoadState>,
    events: Seq<LoadEvent>,
    actions: Seq<LoadAction>,
    k: int,
)
    requires
        is_run(states, events, actions),
        states.last() is Done,
        0 <= k < events.len(),
        events[k] matches LoadEvent::Decoded(rep) && rep.is_failure(),
    ensures
        actions.last() == LoadAction::Finish(Err(LoadError::DecodeFailed)),
        releases(actions) == 1,
        handles_obtained(events) == 1,
{
    assert(transition(states[k], events[k], states[k + 1], actions[k]));
    lemma_release_counted(actions, k);
    lemma_release_balance(states, events, actions);
    let j = k + 1;
    if j < events.len() {
        assert(transition(states[j], events[j], states[j + 1], actions[j]));
        if j + 1 < events.len() {
            let m = j + 1;
            assert(transition(states[m], events[m], states[m + 1], actions[m]));
        }
    }
}

/// A load in which the handle opens, the decoder reports success and the
/// copied bytes form a dense RGB image of the reported size finishes with
/// that image: its samples are the copied bytes, unchanged, and one release
/// was requested.
pub proof fn lemma_successful_load(
    states: Seq<LoadState>,
    events: Seq<LoadEvent>,
    actions: Seq<LoadAction>,
)
    requires
        is_run(states, events, actions),
        events.len() == 4,
        events[0] == (LoadEvent::Opened { handle_valid: true }),
        events[1] matches LoadEvent::Decoded(rep) && !rep.is_failure(),
        events[2] matches LoadEvent::Copied { pixels, metadata: _ },
        events[3] is Closed,
        buffer_fits(
            events[1]->0.width,
            events[1]->0.height,
            events[1]->0.len as usize,
            events[2]->pixels@.len(),
        ),
    ensures
        actions.last() matches LoadAction::Finish(Ok(res)) && {
            &&& res.wf()
            &&& res.metadata == events[2]->metadata
            &&& image_samples(res.image) == events[2]->pixels@
        },
        releases(actions) == 1,
{
    lemma_step_at(states, events, actions, 0);
    lemma_step_at(states, events, actions, 1);
    lemma_step_at(states, events, actions, 2);
    lemma_step_at(states, events, actions, 3);
    lemma_step_wf(states[2], events[2], states[3], actions[2]);
    lemma_step_wf(states[3], events[3], states[4], actions[3]);
    lemma_release_counted(actions, 2);
    lemma_release_balance(states, events, actions);
}

} // verus!
