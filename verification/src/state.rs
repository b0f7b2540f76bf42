//! The shared device state: the single gateway that serializes reads and
//! updates of the current color and is the only code path driving the
//! output.
//!
//! One `DeviceState` instance exists per process. Both ingress paths share
//! it behind one mutual-exclusion guard covering the color and the output
//! driver jointly, so what the output shows and what `get` reports can
//! never diverge mid-update; the guard itself lives with the embedding
//! program, which hands each operation exclusive access.

use vstd::prelude::*;

use crate::color::Color;
use crate::driver::{DriverError, OutputDriver};

verus! {

/// The fixed color the device shows at startup, before any ingress path has
/// run.
pub fn startup_color() -> (c: Color)
    ensures
        c == (Color { red: 242, green: 155, blue: 212 }),
{
    Color { red: 242, green: 155, blue: 212 }
}

/// The current color and the output driver, guarded as one unit.
///
/// The state also carries, as ghost record, the color it was created with
/// and the sequence of updates accepted so far; well-formedness ties the
/// reported color to that record, which is what rules torn updates out.
pub struct DeviceState {
    color: Color,
    driver: OutputDriver,
    initial: Ghost<Color>,
    updates: Ghost<Seq<Color>>,
}

impl DeviceState {
    /// The color the device currently reports.
    pub closed spec fn color_spec(&self) -> Color {
        self.color
    }

    /// The color the state was created with.
    pub closed spec fn initial_spec(&self) -> Color {
        self.initial@
    }

    /// The updates accepted so far, oldest first.
    pub closed spec fn updates_spec(&self) -> Seq<Color> {
        self.updates@
    }

    /// The last color whose application the driver attempted, if any.
    pub closed spec fn attempted_spec(&self) -> Option<Color> {
        self.driver.attempted_spec()
    }

    /// Whether the driver holds physical channels.
    pub closed spec fn is_attached(&self) -> bool {
        self.driver.is_attached()
    }

    /// Well-formedness: the driver is usable, and the reported color is the
    /// one the accepted updates dictate — the last of them, or the initial
    /// color while none has arrived.
    pub closed spec fn wf(&self) -> bool {
        self.driver.wf() && self.color == color_after_updates(self.initial@, self.updates@)
    }

    /// Creates the device state once at startup, with a fixed initial color
    /// and the driver that owns the output channels.
    pub fn new(initial: Color, driver: OutputDriver) -> (s: DeviceState)
        requires
            driver.wf(),
        ensures
            s.wf(),
            s.color_spec() == initial,
            s.initial_spec() == initial,
            s.updates_spec() == Seq::<Color>::empty(),
            s.is_attached() == driver.is_attached(),
            s.attempted_spec() == driver.attempted_spec(),
    {
        DeviceState {
            color: initial,
            driver,
            initial: Ghost(initial),
            updates: Ghost(Seq::empty()),
        }
    }

    /// Returns a copy of the current color. No side effect.
    pub fn get(&self) -> (c: Color)
        ensures
            c == self.color_spec(),
    {
        self.color
    }

    /// Assigns the current color and applies it to the output, as one
    /// serialized update.
    ///
    /// On every exit path the reported color is the requested one, and its
    /// application has at least been attempted; if the driver fails, the
    /// color stays assigned even though the physical output may disagree —
    /// an accepted degradation.
    pub fn set(&mut self, color: Color) -> (r: Result<(), DriverError>)
        requires
            old(self).wf(),
        ensures
            final(self).wf(),
            final(self).color_spec() == color,
            final(self).attempted_spec() == Some(color),
            final(self).is_attached() == old(self).is_attached(),
            final(self).initial_spec() == old(self).initial_spec(),
            final(self).updates_spec() == old(self).updates_spec().push(color),
            !old(self).is_attached() ==> r is Ok,
            r matches Err(e) ==> e == DriverError::WriteFailed && old(self).is_attached(),
    {
        self.updates = Ghost(self.updates@.push(color));
        self.color = color;
        self.driver.apply(color)
    }
}

/// The color an observer reads after a serialized sequence of accepted
/// updates: the last update, or the initial color while none has arrived.
pub open spec fn color_after_updates(initial: Color, updates: Seq<Color>) -> Color {
    if updates.len() == 0 {
        initial
    } else {
        updates.last()
    }
}

/// A set of a color followed by a get returns exactly that color: `set`
/// leaves the state's color at its argument, and `get` reports the state's
/// color, for every valid triple.
pub proof fn lemma_set_then_get(after_set: DeviceState, requested: Color, observed: Color)
    requires
        after_set.color_spec() == requested,
        observed == after_set.color_spec(),
    ensures
        observed == requested,
{
}

/// Serialized updates never tear: whatever order the two ingress paths'
/// updates were granted the state in, an observer reads exactly the initial
/// color or exactly one of the submitted triples — never a color mixing
/// channels from two different updates.
pub proof fn lemma_updates_never_tear(initial: Color, updates: Seq<Color>)
    ensures
        color_after_updates(initial, updates) == initial
            || updates.contains(color_after_updates(initial, updates)),
{
    if updates.len() > 0 {
        assert(updates[updates.len() - 1] == updates.last());
    }
}

/// The same, of the device state itself: a well-formed state reports
/// exactly the color it was created with or exactly one of the updates it
/// accepted, whole — so a reader concurrent with the two ingress paths can
/// never observe channels mixed from two different requests.
pub proof fn lemma_reported_color_is_one_whole_update(s: DeviceState)
    requires
        s.wf(),
    ensures
        s.color_spec() == s.initial_spec() || s.updates_spec().contains(s.color_spec()),
{
    lemma_updates_never_tear(s.initial_spec(), s.updates_spec());
}

} // verus!
