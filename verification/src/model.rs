//! Mathematical model of the debounce engine: what one sample tick does to
//! the run counter, the published level and the reported transition, and how
//! a whole sequence of raw samples drives the machine.

use vstd::prelude::*;

verus! {

use crate::DebounceState;

/// The transition reported by one tick, given the counter and threshold
/// before the tick and whether the raw sample read as "active" for the
/// pin's polarity.
pub open spec fn step_kind(counter: int, max_counts: int, raw_active: bool) -> DebounceState {
    if !raw_active {
        DebounceState::Reset
    } else if counter < max_counts {
        DebounceState::Debouncing
    } else {
        DebounceState::Active
    }
}

/// The run counter after one tick: cleared on an inactive sample, advanced
/// while below the threshold, pinned at its value once saturated.
pub open spec fn step_counter(counter: int, max_counts: int, raw_active: bool) -> int {
    if !raw_active {
        0
    } else if counter < max_counts {
        counter + 1
    } else {
        counter
    }
}

/// The published level after one tick. `active_value` is the level that
/// means "active" for the pin's polarity (true for an active-high pin,
/// false for an active-low pin); `!active_value` is the rest level.
pub open spec fn step_state(
    counter: int,
    max_counts: int,
    state: bool,
    raw_active: bool,
    active_value: bool,
) -> bool {
    if !raw_active {
        !active_value
    } else if counter < max_counts {
        state
    } else {
        active_value
    }
}

/// The run counter after a whole sequence of raw samples, `raws[i]` being
/// whether the sample of tick `i` read as active.
pub open spec fn counter_after(counter: int, max_counts: int, raws: Seq<bool>) -> int
    decreases raws.len(),
{
    if raws.len() == 0 {
        counter
    } else {
        counter_after(step_counter(counter, max_counts, raws[0]), max_counts, raws.drop_first())
    }
}

/// The published level after a whole sequence of raw samples.
pub open spec fn state_after(
    counter: int,
    max_counts: int,
    state: bool,
    raws: Seq<bool>,
    active_value: bool,
) -> bool
    decreases raws.len(),
{
    if raws.len() == 0 {
        state
    } else {
        state_after(
            step_counter(counter, max_counts, raws[0]),
            max_counts,
            step_state(counter, max_counts, state, raws[0], active_value),
            raws.drop_first(),
            active_value,
        )
    }
}

/// The transitions reported over a whole sequence of raw samples, one per
/// tick.
pub open spec fn kinds_after(counter: int, max_counts: int, raws: Seq<bool>) -> Seq<DebounceState>
    decreases raws.len(),
{
    if raws.len() == 0 {
        Seq::empty()
    } else {
        seq![step_kind(counter, max_counts, raws[0])] + kinds_after(
            step_counter(counter, max_counts, raws[0]),
            max_counts,
            raws.drop_first(),
        )
    }
}

proof fn lemma_run_count_bounded_from(counter: int, max_counts: int, raws: Seq<bool>)
    requires
        0 <= counter <= max_counts,
    ensures
        0 <= counter_after(counter, max_counts, raws) <= max_counts,
    decreases raws.len(),
{
    if raws.len() > 0 {
        lemma_run_count_bounded_from(
            step_counter(counter, max_counts, raws[0]),
            max_counts,
            raws.drop_first(),
        );
    }
}

/// Law: for every sequence of raw samples, the run counter stays within
/// `[0, max_counts]` after every tick — at the end of the run and after
/// every prefix of it — whenever it starts there.
pub proof fn lemma_run_count_bounded(counter: int, max_counts: int, raws: Seq<bool>)
    requires
        0 <= counter <= max_counts,
    ensures
        0 <= counter_after(counter, max_counts, raws) <= max_counts,
        (forall|n: int|
            0 <= n <= raws.len() ==> 0 <= #[trigger] counter_after(
                counter,
                max_counts,
                raws.take(n),
            ) <= max_counts),
{
    lemma_run_count_bounded_from(counter, max_counts, raws);
    assert forall|n: int|
        0 <= n <= raws.len() implies 0 <= #[trigger] counter_after(
        counter,
        max_counts,
        raws.take(n),
    ) <= max_counts by {
        lemma_run_count_bounded_from(counter, max_counts, raws.take(n));
    }
}

/// Law: a tick whose raw sample reads as inactive reports `Reset`, clears
/// the run counter and publishes the rest level, whatever came before.
pub proof fn lemma_inactive_tick_resets(
    counter: int,
    max_counts: int,
    state: bool,
    active_value: bool,
)
    ensures
        step_kind(counter, max_counts, false) == DebounceState::Reset,
        step_counter(counter, max_counts, false) == 0,
        step_state(counter, max_counts, state, false, active_value) == !active_value,
{
}

/// What an unbroken run of active samples does, from any counter within
/// bounds: the counter climbs to the threshold and pins there, every tick
/// below the threshold reports `Debouncing` and every tick at it reports
/// `Active`, and the published level flips to active exactly when some tick
/// ran at the threshold.
pub proof fn lemma_active_run(
    counter: int,
    max_counts: int,
    state: bool,
    active_value: bool,
    raws: Seq<bool>,
)
    requires
        0 <= counter <= max_counts,
        forall|i: int| 0 <= i < raws.len() ==> raws[i],
    ensures
        counter_after(counter, max_counts, raws) == (if counter + raws.len() <= max_counts {
            counter + raws.len()
        } else {
            max_counts
        }),
        kinds_after(counter, max_counts, raws).len() == raws.len(),
        (forall|i: int|
            0 <= i < raws.len() ==> kinds_after(counter, max_counts, raws)[i] == (
            if counter + i < max_counts {
                DebounceState::Debouncing
            } else {
                DebounceState::Active
            })),
        state_after(counter, max_counts, state, raws, active_value) == (if raws.len() > 0
            && counter + raws.len() - 1 >= max_counts {
            active_value
        } else {
            state
        }),
    decreases raws.len(),
{
    if raws.len() > 0 {
        let tail = raws.drop_first();
        let c2 = step_counter(counter, max_counts, true);
        let s2 = step_state(counter, max_counts, state, true, active_value);
        assert(raws[0]);
        assert forall|i: int| 0 <= i < tail.len() implies tail[i] by {
            assert(tail[i] == raws[i + 1]);
        }
        lemma_active_run(c2, max_counts, s2, active_value, tail);
        assert forall|i: int|
            0 <= i < raws.len() implies kinds_after(counter, max_counts, raws)[i] == (
        if counter + i < max_counts {
            DebounceState::Debouncing
        } else {
            DebounceState::Active
        }) by {
            if i > 0 {
                assert(kinds_after(counter, max_counts, raws)[i] == kinds_after(
                    c2,
                    max_counts,
                    tail,
                )[i - 1]);
            }
        }
    }
}

/// Law: starting from a cleared counter, an input that reads as active for
/// `max_counts + 1` consecutive ticks is reported as `Debouncing` exactly
/// `max_counts` times and then as `Active`; the published level stays at
/// rest through every strict prefix of the run and is active only after the
/// final tick.
pub proof fn lemma_activation_takes_threshold_plus_one(
    max_counts: int,
    active_value: bool,
    raws: Seq<bool>,
)
    requires
        max_counts >= 0,
        raws.len() == max_counts + 1,
        forall|i: int| 0 <= i < raws.len() ==> raws[i],
    ensures
        kinds_after(0, max_counts, raws).len() == raws.len(),
        (forall|i: int|
            0 <= i < max_counts ==> kinds_after(0, max_counts, raws)[i]
                == DebounceState::Debouncing),
        kinds_after(0, max_counts, raws)[max_counts] == DebounceState::Active,
        state_after(0, max_counts, !active_value, raws, active_value) == active_value,
        (forall|n: int|
            0 <= n <= max_counts ==> state_after(
                0,
                max_counts,
                !active_value,
                raws.take(n),
                active_value,
            ) == !active_value),
{
    lemma_active_run(0, max_counts, !active_value, active_value, raws);
    assert forall|n: int|
        0 <= n <= max_counts implies state_after(
        0,
        max_counts,
        !active_value,
        raws.take(n),
        active_value,
    ) == !active_value by {
        assert forall|i: int| 0 <= i < raws.take(n).len() implies raws.take(n)[i] by {
            assert(raws.take(n)[i] == raws[i]);
        }
        lemma_active_run(0, max_counts, !active_value, active_value, raws.take(n));
    }
}

/// Law: once saturated with the active level published, further active
/// samples change nothing — every tick reports `Active`, the counter stays
/// pinned at the threshold and the published level stays active.
pub proof fn lemma_saturated_stays_active(max_counts: int, active_value: bool, raws: Seq<bool>)
    requires
        max_counts >= 0,
        forall|i: int| 0 <= i < raws.len() ==> raws[i],
    ensures
        counter_after(max_counts, max_counts, raws) == max_counts,
        state_after(max_counts, max_counts, active_value, raws, active_value) == active_value,
        kinds_after(max_counts, max_counts, raws).len() == raws.len(),
        (forall|i: int|
            0 <= i < raws.len() ==> kinds_after(max_counts, max_counts, raws)[i]
                == DebounceState::Active),
{
    lemma_active_run(max_counts, max_counts, active_value, active_value, raws);
}

} // verus!
