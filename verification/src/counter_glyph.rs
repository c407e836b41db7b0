//! The counter glyph: a plugin that counts up from its configured start,
//! showing each value before it moves on to the next.
use vstd::prelude::*;

verus! {

/// How a counter glyph starts.
#[derive(Debug)]
pub struct Config {
    pub initial_value: usize,
}

impl Default for Config {
    /// A counter that starts at zero.
    fn default() -> (config: Self)
        ensures
            config.initial_value == 0,
    {
        Config { initial_value: 0 }
    }
}

/// What a counter glyph leaves behind when it stops.
#[derive(Debug)]
pub struct ExitData {
    pub final_value: usize,
}

/// A running counter.
pub struct Glyph {
    pub counter: usize,
}

impl Glyph {
    /// Loads a counter from its configuration: it starts at `initial_value`.
    pub fn load(config: Config) -> (glyph: Glyph)
        ensures
            glyph.counter == config.initial_value,
    {
        Glyph { counter: config.initial_value }
    }

    /// One round of the counter: gives the value to show, then moves one up.
    /// The count cannot pass the largest `usize`.
    pub fn tick(&mut self) -> (shown: usize)
        requires
            old(self).counter < usize::MAX,
        ensures
            shown == old(self).counter,
            final(self).counter == old(self).counter + 1,
    {
        let shown = self.counter;
        self.counter = self.counter + 1;
        shown
    }
}

} // verus!
