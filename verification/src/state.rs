//! The formatting state: the writer, the clock that time macros read and
//! set, and the table of sheet lookups.

use vstd::prelude::*;
use crate::lookup::{Lookups, LookupsView};
use crate::writer::{CGWikiWriter, WriterView};

verus! {

/// The time the game's clock starts from (2013-08-27 08:00:00 UTC).
pub const FFXIV_EPOCH: u32 = 1377590400;

/// The formatting state.
pub struct CGWState {
    pub writer: CGWikiWriter,
    pub lookups: Lookups,
    pub time: u32,
    /// Set where formatting met an input it cannot go on from (where the
    /// game's own formatter stops); every step then fails.
    pub halted: bool,
}

/// The formatting state as a mathematical object.
pub struct StateView {
    pub writer: WriterView,
    pub lookups: LookupsView,
    pub time: u32,
    pub halted: bool,
}

impl View for CGWState {
    type V = StateView;

    open spec fn view(&self) -> StateView {
        StateView { writer: self.writer@, lookups: self.lookups@, time: self.time, halted: self.halted }
    }
}

impl CGWState {
    /// A state writing to `writer`, with the clock at the game's epoch.
    pub fn new(writer: CGWikiWriter, lookups: Lookups) -> (r: Self)
        ensures
            r@ == (StateView { writer: writer@, lookups: lookups@, time: FFXIV_EPOCH, halted: false }),
    {
        let mut ret = Self { writer, lookups, time: 0, halted: false };
        ret.init_time();
        ret
    }

    /// Sets the clock to the game's epoch.
    pub fn init_time(&mut self)
        ensures
            final(self)@ == (StateView { time: FFXIV_EPOCH, ..old(self)@ }),
    {
        self.time = FFXIV_EPOCH;
    }
}

} // verus!
