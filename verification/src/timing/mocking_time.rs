//! A settable clock for driving time-dependent behaviour in tests: the
//! instant it reports is held in a shared cell, so every timer handed a
//! clone of one [`MockTimeImpl`] observes the same manipulated time.

use super::{ClockDuration, TimeImpl, UtcDateTime};
use std::cell::RefCell;
use std::rc::Rc;
use vstd::prelude::*;

verus! {

/// The shared mutable cell holding the mocked instant. `RefCell` is
/// declared opaque: nothing is assumed of what a read returns.
#[verifier::external_type_specification]
#[verifier::external_body]
#[verifier::reject_recursive_types(T)]
pub struct ExRefCell<T: ?Sized>(RefCell<T>);

/// Relies on std's `RefCell::new`: wraps the pair in a fresh cell.
#[verifier::external_body]
fn new_time_cell(v: (i64, i32)) -> RefCell<(i64, i32)> {
    RefCell::new(v)
}

/// Relies on std's `RefCell::borrow`: reads the pair the cell holds.
/// The cell is shared and mutable, so nothing is promised of the value.
#[verifier::external_body]
fn read_time_cell(c: &RefCell<(i64, i32)>) -> (i64, i32) {
    *c.borrow()
}

/// Relies on std's `RefCell::borrow_mut`: replaces the pair the cell
/// holds.
#[verifier::external_body]
fn write_time_cell(c: &RefCell<(i64, i32)>, v: (i64, i32)) {
    *c.borrow_mut() = v;
}

/// A deterministic test clock whose "now" is set and advanced by the
/// test itself; clones share one underlying instant.
#[derive(Clone)]
pub struct MockTimeImpl(Rc<RefCell<(i64, i32)>>);

impl MockTimeImpl {
    /// A mock clock initially reading `current_now`.
    pub fn new(current_now: UtcDateTime) -> Self {
        let cell = new_time_cell((current_now.secs, current_now.nanos));
        MockTimeImpl(Rc::new(cell))
    }

    /// Moves the shared instant forward by `to_add` (backward for a
    /// negative span); the instant is left untouched when the sum would
    /// leave the supported time range.
    pub fn add_to_now(&self, to_add: ClockDuration)
        requires
            to_add.wf(),
    {
        let (s, n) = read_time_cell(&self.0);
        let now = UtcDateTime::clamped(s, n as i64);
        match now.checked_add(&to_add) {
            Some(t) => self.set_now(t),
            None => {},
        }
    }

    /// Replaces the shared instant.
    pub fn set_now(&self, new_now: UtcDateTime) {
        write_time_cell(&self.0, (new_now.secs, new_now.nanos));
    }
}

impl TimeImpl for MockTimeImpl {
    /// The instant most recently stored, repaired to a well-formed one
    /// should the cell ever hold an out-of-range pair.
    fn now(&self) -> (t: UtcDateTime)
        ensures
            t.wf(),
    {
        let (s, n) = read_time_cell(&self.0);
        UtcDateTime::clamped(s, n as i64)
    }
}

} // verus!
