//! A debouncing wrapper for a noisy binary input pin.
//!
//! A mechanical switch bounces for a short while after each physical
//! transition. [`DebouncedInputPin`] wraps a raw, fallibly readable pin and
//! turns its noisy level into a stable published level: the caller drives the
//! machine by calling `update()` once per sampling tick (nominally every
//! millisecond), and reads the stable level through `is_high()` / `is_low()`.
//! A transition is published only after the raw level has read as "active"
//! for a configurable number of consecutive ticks.

use vstd::prelude::*;

pub mod model;
pub mod prelude;

verus! {

use crate::model::{step_kind, step_counter, step_state};
use core::marker::PhantomData;

/// Marker for pins whose "active" (pressed) level is electrically low.
pub struct ActiveLow;

/// Marker for pins whose "active" (pressed) level is electrically high.
pub struct ActiveHigh;

/// What a polarity tag fixes: the rest (inactive) published level — low for
/// an active-high pin, high for an active-low pin, since an unpressed
/// active-low input reads electrically high.
pub trait Polarity {
    /// The rest level, as the contracts speak of it.
    spec fn spec_rest_level() -> bool;

    /// The rest level the published state starts at.
    fn rest_level() -> (r: bool)
        ensures
            r == Self::spec_rest_level(),
    ;
}

impl Polarity for ActiveHigh {
    open spec fn spec_rest_level() -> bool {
        false
    }

    fn rest_level() -> bool {
        false
    }
}

impl Polarity for ActiveLow {
    open spec fn spec_rest_level() -> bool {
        true
    }

    fn rest_level() -> bool {
        true
    }
}

/// The transition classification reported by one call of `update()`.
#[derive(Debug, PartialEq, Eq, Structural)]
pub enum DebounceState {
    /// The raw level reads as active, but has not yet done so for enough
    /// consecutive ticks to be published.
    Debouncing,
    /// The raw level reads as inactive; the run counter was cleared and the
    /// published level returned to rest.
    Reset,
    /// The raw level has read as active past the threshold; the published
    /// level is (re)confirmed active.
    Active,
}

/// The raw-pin capability the engine needs: a fallible read of the current
/// electrical level. Nothing is promised of the value read — it is whatever
/// the hardware reports on that tick — so these methods carry no contract.
pub trait InputPin {
    /// The error the underlying read can fail with.
    type Error;

    /// Reads whether the pin is currently at logical high.
    fn is_high(&self) -> Result<bool, Self::Error>;

    /// Reads whether the pin is currently at logical low.
    fn is_low(&self) -> Result<bool, Self::Error>;
}

/// Advancing a debounce machine by one sample tick.
pub trait Debounce {
    type Error;
    type State;

    /// Advances the machine one tick; reports the transition taken.
    fn update(&mut self) -> Result<Self::State, Self::Error>;
}

/// Reading whether a pin is at its polarity's "active" level, with the
/// polarity already fixed by the implementing type.
pub trait ActiveTrait {
    type Error;

    /// Returns true when the pin is at its active level.
    fn is_active(&self) -> Result<bool, Self::Error>;
}

/// A debounced input pin: a raw pin plus a saturating run-length counter and
/// the last published level.
pub struct DebouncedInputPin<T: InputPin, A> {
    /// The wrapped raw pin.
    pub pin: T,

    /// Whether the pin is active-high or active-low.
    pub activeness: PhantomData<A>,

    /// How many consecutive ticks the raw level has read as active, pinned
    /// at `max_counts` once saturated.
    pub counter: i8,

    /// How many consecutive active samples are required before the active
    /// level is published.
    pub max_counts: i8,

    /// The last published (debounced) level.
    pub state: bool,
}

impl<T: InputPin, A> DebouncedInputPin<T, A> {
    /// The counter invariant: it never leaves `[0, max_counts]`. Established
    /// by the constructors and preserved by every tick; setting a lower
    /// threshold afterwards may break it deliberately, in which case the next
    /// active sample immediately reads as saturated.
    pub open spec fn wf(self) -> bool {
        0 <= self.counter <= self.max_counts
    }

    /// What one tick does: `post` is the machine after the tick, `st` the
    /// transition it reported, `raw_active` what the raw sample read as, and
    /// `active_value` the published level that means "active" for the pin's
    /// polarity. The raw pin and the threshold are untouched; counter, level
    /// and report follow the model exactly.
    pub open spec fn stepped(
        self,
        post: Self,
        st: DebounceState,
        raw_active: bool,
        active_value: bool,
    ) -> bool {
        &&& post.pin == self.pin
        &&& post.max_counts == self.max_counts
        &&& st == step_kind(self.counter as int, self.max_counts as int, raw_active)
        &&& post.counter as int == step_counter(
            self.counter as int,
            self.max_counts as int,
            raw_active,
        )
        &&& post.state == step_state(
            self.counter as int,
            self.max_counts as int,
            self.state,
            raw_active,
            active_value,
        )
    }

    /// Changes how many consecutive active samples are required before the
    /// active level is published. Nothing else changes; no relation to the
    /// current counter is enforced.
    pub fn set_poll_amounts(&mut self, max_counts: i8)
        ensures
            final(self).max_counts == max_counts,
            final(self).counter == old(self).counter,
            final(self).state == old(self).state,
            final(self).pin == old(self).pin,
    {
        self.max_counts = max_counts;
    }

    /// The single debounce algorithm, shared by both polarities: advances
    /// the machine one tick from an already-sampled raw level. `raw_active`
    /// is whether that sample read as "active" for the pin's polarity, and
    /// `active_value` is the published level that means "active" (true for
    /// active-high, false for active-low).
    pub fn step(&mut self, raw_active: bool, active_value: bool) -> (st: DebounceState)
        ensures
            old(self).stepped(*final(self), st, raw_active, active_value),
            old(self).wf() ==> final(self).wf(),
    {
        if !raw_active {
            self.counter = 0;
            self.state = !active_value;
            DebounceState::Reset
        } else if self.counter < self.max_counts {
            self.counter = self.counter + 1;
            DebounceState::Debouncing
        } else {
            self.state = active_value;
            DebounceState::Active
        }
    }

    /// Returns the last published (debounced) level. Never reads the raw
    /// pin and never fails; the error type is carried only for interface
    /// uniformity with the raw read.
    pub fn is_high(&self) -> (r: Result<bool, T::Error>)
        ensures
            r == Ok::<bool, T::Error>(self.state),
    {
        Ok(self.state)
    }

    /// Returns the complement of the last published (debounced) level.
    /// Never reads the raw pin and never fails.
    pub fn is_low(&self) -> (r: Result<bool, T::Error>)
        ensures
            r == Ok::<bool, T::Error>(!self.state),
    {
        Ok(!self.state)
    }
}

impl<T: InputPin, A: Polarity> DebouncedInputPin<T, A> {
    /// Initializes a new debounced input pin with the default threshold,
    /// at rest: counter cleared and the published level at the polarity's
    /// rest value (low for an active-high pin, high for an active-low pin).
    pub fn new(pin: T, _activeness: A) -> (r: Self)
        ensures
            r.pin == pin,
            r.counter == 0,
            r.max_counts == 10,
            r.state == A::spec_rest_level(),
            r.wf(),
    {
        Self { pin, activeness: PhantomData, counter: 0, max_counts: 10, state: A::rest_level() }
    }
}

impl<T: InputPin, A> InputPin for DebouncedInputPin<T, A> {
    type Error = T::Error;

    /// The debounced pin is itself a pin: reports exactly the last
    /// published level, never reads the raw pin and never fails.
    fn is_high(&self) -> (r: Result<bool, T::Error>)
        ensures
            r == Ok::<bool, T::Error>(self.state),
    {
        Ok(self.state)
    }

    /// Reports exactly the complement of the last published level, never
    /// reads the raw pin and never fails.
    fn is_low(&self) -> (r: Result<bool, T::Error>)
        ensures
            r == Ok::<bool, T::Error>(!self.state),
    {
        Ok(!self.state)
    }
}

impl<T: InputPin> DebouncedInputPin<T, ActiveHigh> {
    /// Initializes a new active-high debounced input pin, at rest: counter
    /// cleared and the published level low.
    pub fn active_high(pin: T) -> (r: Self)
        ensures
            r.pin == pin,
            r.counter == 0,
            r.max_counts == 10,
            r.state == false,
            r.wf(),
    {
        Self { pin, activeness: PhantomData, counter: 0, max_counts: 10, state: false }
    }

    /// Advances the machine one tick by sampling the raw pin once.
    ///
    /// A raw low sample clears the counter and republishes the rest level
    /// (`Reset`); a raw high sample counts toward the threshold
    /// (`Debouncing`) until saturation, after which every further high
    /// sample (re)publishes the active level (`Active`). A failed raw read
    /// is forwarded unchanged and leaves the whole machine untouched.
    pub fn update(&mut self) -> (r: Result<DebounceState, T::Error>)
        ensures
            r is Err ==> *final(self) == *old(self),
            (r matches Ok(st) ==> exists|raw_active: bool|
                old(self).stepped(*final(self), st, raw_active, true)),
            (r matches Ok(st) ==> (st == DebounceState::Reset ==> final(self).counter == 0
                && final(self).state == false)),
            (r matches Ok(st) ==> (st == DebounceState::Debouncing ==> old(self).counter < old(
                self,
            ).max_counts && final(self).counter == old(self).counter + 1 && final(self).state
                == old(self).state)),
            (r matches Ok(st) ==> (st == DebounceState::Active ==> final(self).counter == old(
                self,
            ).counter && final(self).state == true)),
            old(self).wf() ==> final(self).wf(),
            final(self).pin == old(self).pin,
            final(self).max_counts == old(self).max_counts,
    {
        let raw_low = match self.pin.is_low() {
            Ok(b) => b,
            Err(e) => {
                return Err(e);
            },
        };
        let st = self.step(!raw_low, true);
        Ok(st)
    }
}

impl<T: InputPin> DebouncedInputPin<T, ActiveLow> {
    /// Initializes a new active-low debounced input pin, at rest: counter
    /// cleared and the published level high (an unpressed active-low input
    /// reads electrically high).
    pub fn active_low(pin: T) -> (r: Self)
        ensures
            r.pin == pin,
            r.counter == 0,
            r.max_counts == 10,
            r.state == true,
            r.wf(),
    {
        Self { pin, activeness: PhantomData, counter: 0, max_counts: 10, state: true }
    }

    /// Advances the machine one tick by sampling the raw pin once.
    ///
    /// The active-low mirror of the active-high `update`: a raw high sample
    /// resets to the rest level (published high), a raw low sample counts
    /// toward the threshold, and after saturation every further low sample
    /// (re)publishes the active level (published low). A failed raw read is
    /// forwarded unchanged and leaves the whole machine untouched.
    pub fn update(&mut self) -> (r: Result<DebounceState, T::Error>)
        ensures
            r is Err ==> *final(self) == *old(self),
            (r matches Ok(st) ==> exists|raw_active: bool|
                old(self).stepped(*final(self), st, raw_active, false)),
            (r matches Ok(st) ==> (st == DebounceState::Reset ==> final(self).counter == 0
                && final(self).state == true)),
            (r matches Ok(st) ==> (st == DebounceState::Debouncing ==> old(self).counter < old(
                self,
            ).max_counts && final(self).counter == old(self).counter + 1 && final(self).state
                == old(self).state)),
            (r matches Ok(st) ==> (st == DebounceState::Active ==> final(self).counter == old(
                self,
            ).counter && final(self).state == false)),
            old(self).wf() ==> final(self).wf(),
            final(self).pin == old(self).pin,
            final(self).max_counts == old(self).max_counts,
    {
        let raw_high = match self.pin.is_high() {
            Ok(b) => b,
            Err(e) => {
                return Err(e);
            },
        };
        let st = self.step(!raw_high, false);
        Ok(st)
    }
}

impl<T: InputPin> Debounce for DebouncedInputPin<T, ActiveHigh> {
    type Error = T::Error;

    type State = DebounceState;

    /// Advances the debounce logic one tick; same behavior and same
    /// contract as the inherent `update`.
    fn update(&mut self) -> (r: Result<DebounceState, T::Error>)
        ensures
            r is Err ==> *final(self) == *old(self),
            (r matches Ok(st) ==> exists|raw_active: bool|
                old(self).stepped(*final(self), st, raw_active, true)),
            (r matches Ok(st) ==> (st == DebounceState::Reset ==> final(self).counter == 0
                && final(self).state == false)),
            (r matches Ok(st) ==> (st == DebounceState::Debouncing ==> old(self).counter < old(
                self,
            ).max_counts && final(self).counter == old(self).counter + 1 && final(self).state
                == old(self).state)),
            (r matches Ok(st) ==> (st == DebounceState::Active ==> final(self).counter == old(
                self,
            ).counter && final(self).state == true)),
            old(self).wf() ==> final(self).wf(),
            final(self).pin == old(self).pin,
            final(self).max_counts == old(self).max_counts,
    {
        self.update()
    }
}

impl<T: InputPin> Debounce for DebouncedInputPin<T, ActiveLow> {
    type Error = T::Error;

    type State = DebounceState;

    /// Advances the debounce logic one tick; same behavior and same
    /// contract as the inherent `update`.
    fn update(&mut self) -> (r: Result<DebounceState, T::Error>)
        ensures
            r is Err ==> *final(self) == *old(self),
            (r matches Ok(st) ==> exists|raw_active: bool|
                old(self).stepped(*final(self), st, raw_active, false)),
            (r matches Ok(st) ==> (st == DebounceState::Reset ==> final(self).counter == 0
                && final(self).state == true)),
            (r matches Ok(st) ==> (st == DebounceState::Debouncing ==> old(self).counter < old(
                self,
            ).max_counts && final(self).counter == old(self).counter + 1 && final(self).state
                == old(self).state)),
            (r matches Ok(st) ==> (st == DebounceState::Active ==> final(self).counter == old(
                self,
            ).counter && final(self).state == false)),
            old(self).wf() ==> final(self).wf(),
            final(self).pin == old(self).pin,
            final(self).max_counts == old(self).max_counts,
    {
        self.update()
    }
}

impl<T: InputPin> ActiveTrait for DebouncedInputPin<T, ActiveHigh> {
    type Error = T::Error;

    /// For an active-high pin the active level is high: reports exactly
    /// whether the published level is high. Never fails.
    fn is_active(&self) -> (r: Result<bool, T::Error>)
        ensures
            r == Ok::<bool, T::Error>(self.state),
    {
        self.is_high()
    }
}

impl<T: InputPin> ActiveTrait for DebouncedInputPin<T, ActiveLow> {
    type Error = T::Error;

    /// For an active-low pin the active level is low: reports exactly
    /// whether the published level is low. Never fails.
    fn is_active(&self) -> (r: Result<bool, T::Error>)
        ensures
            r == Ok::<bool, T::Error>(!self.state),
    {
        self.is_low()
    }
}

} // verus!
