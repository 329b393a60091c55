//! The toggle/rate state: whether clicking is engaged, the requested rate,
//! and a status line that is always the derived text for the current pair.

use vstd::prelude::*;
use crate::format::{tenths_str, tenths_string};

verus! {

/// Lowest accepted rate, in tenths of a click per second (1.0 CPS).
pub const RATE_MIN_TENTHS: u32 = 10;

/// Highest accepted rate, in tenths of a click per second (1000.0 CPS).
pub const RATE_MAX_TENTHS: u32 = 10000;

/// The rate a fresh state starts with (50.0 CPS).
pub const RATE_DEFAULT_TENTHS: u32 = 500;

/// `v` clamped into the accepted rate range: an out-of-range value lands on
/// the nearest bound.
pub open spec fn clamped_rate(v: int) -> int {
    if v < RATE_MIN_TENTHS as int {
        RATE_MIN_TENTHS as int
    } else if v > RATE_MAX_TENTHS as int {
        RATE_MAX_TENTHS as int
    } else {
        v
    }
}

/// The status line derived from the current pair: a paused message while
/// inactive, otherwise the rate embedded in a clicking message.
pub open spec fn status_text(active: bool, rate_tenths: nat) -> Seq<char> {
    if active {
        "🔥 Clicking at "@ + tenths_str(rate_tenths) + " CPS! 🔥"@
    } else {
        "Paused. Press START or F1 to resume."@
    }
}

/// The mathematical model of a [`ClickerState`]: the pair the status line
/// is derived from.
pub ghost struct StateModel {
    pub active: bool,
    pub rate_tenths: int,
}

impl StateModel {
    /// The rate lies in the accepted range.
    pub open spec fn wf(self) -> bool {
        RATE_MIN_TENTHS as int <= self.rate_tenths <= RATE_MAX_TENTHS as int
    }

    /// The model after one toggle: activity flipped, rate kept.
    pub open spec fn toggled(self) -> StateModel {
        StateModel { active: !self.active, rate_tenths: self.rate_tenths }
    }

    /// The model after a rate request of `v`: rate clamped, activity kept.
    pub open spec fn with_rate(self, v: int) -> StateModel {
        StateModel { active: self.active, rate_tenths: clamped_rate(v) }
    }

    /// The status line this model derives.
    pub open spec fn status(self) -> Seq<char> {
        status_text(self.active, self.rate_tenths as nat)
    }
}

/// The clicker's whole mutable state. The stored status string is an
/// invariant part: it always equals the text derived from the pair.
pub struct ClickerState {
    active: bool,
    rate_tenths: u32,
    status: String,
}

impl View for ClickerState {
    type V = StateModel;

    closed spec fn view(&self) -> StateModel {
        StateModel { active: self.active, rate_tenths: self.rate_tenths as int }
    }
}

/// Builds the status line for the given pair.
fn render_status(active: bool, rate_tenths: u32) -> (s: String)
    ensures
        s@ == status_text(active, rate_tenths as nat),
{
    if active {
        let mut s = String::from_str("🔥 Clicking at ");
        let rate = tenths_string(rate_tenths);
        s.append(rate.as_str());
        s.append(" CPS! 🔥");
        s
    } else {
        String::from_str("Paused. Press START or F1 to resume.")
    }
}

impl ClickerState {
    /// The rate is in range and the stored status is the derived text.
    pub closed spec fn wf(&self) -> bool {
        &&& self@.wf()
        &&& self.status@ == self@.status()
    }

    /// A fresh state: inactive, at the default rate.
    pub fn new() -> (s: ClickerState)
        ensures
            s.wf(),
            !s@.active,
            s@.rate_tenths == RATE_DEFAULT_TENTHS as int,
    {
        ClickerState {
            active: false,
            rate_tenths: RATE_DEFAULT_TENTHS,
            status: render_status(false, RATE_DEFAULT_TENTHS),
        }
    }

    /// Flips between idle and clicking; the status line follows.
    pub fn toggle(&mut self)
        requires
            old(self).wf(),
        ensures
            final(self).wf(),
            final(self)@ == old(self)@.toggled(),
    {
        self.active = !self.active;
        self.status = render_status(self.active, self.rate_tenths);
    }

    /// Stores `v` clamped into the accepted range; activity is untouched and
    /// the status line follows. Out-of-range requests are clamped, never
    /// rejected: there is no error case.
    pub fn set_rate(&mut self, v: i64)
        requires
            old(self).wf(),
        ensures
            final(self).wf(),
            final(self)@ == old(self)@.with_rate(v as int),
    {
        let r: u32 = if v < RATE_MIN_TENTHS as i64 {
            RATE_MIN_TENTHS
        } else if v > RATE_MAX_TENTHS as i64 {
            RATE_MAX_TENTHS
        } else {
            v as u32
        };
        self.rate_tenths = r;
        self.status = render_status(self.active, r);
    }

    /// Whether clicking is engaged.
    pub fn is_active(&self) -> (b: bool)
        ensures
            b == self@.active,
    {
        self.active
    }

    /// The current rate, in tenths of a click per second.
    pub fn rate_tenths(&self) -> (r: u32)
        ensures
            r as int == self@.rate_tenths,
    {
        self.rate_tenths
    }

    /// The status line, always exactly the text derived from the pair.
    pub fn status(&self) -> (s: &str)
        requires
            self.wf(),
        ensures
            s@ == self@.status(),
    {
        self.status.as_str()
    }
}

/// Toggling is an involution: applied twice it returns the model, and with
/// it the derived status line, to their original values.
pub proof fn lemma_toggle_twice(m: StateModel)
    ensures
        m.toggled().toggled() == m,
        m.toggled().toggled().status() == m.status(),
{
}

/// A rate request lands on the nearest bound when out of range and is kept
/// as it is when in range; the stored rate is always in range.
pub proof fn lemma_rate_clamps(v: int)
    ensures
        v < RATE_MIN_TENTHS as int ==> clamped_rate(v) == RATE_MIN_TENTHS as int,
        v > RATE_MAX_TENTHS as int ==> clamped_rate(v) == RATE_MAX_TENTHS as int,
        RATE_MIN_TENTHS as int <= v <= RATE_MAX_TENTHS as int ==> clamped_rate(v) == v,
        RATE_MIN_TENTHS as int <= clamped_rate(v) <= RATE_MAX_TENTHS as int,
{
}

} // verus!
