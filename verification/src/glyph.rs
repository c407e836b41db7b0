//! The plugin model of the glyph server.
use vstd::prelude::*;

verus! {

/// A glyph is a plugin for the glyph server to run.
pub trait Glyph: Sized {
    type Config;

    type ExitData;

    /// load() loads the plugin using the given configuration
    fn load(config: Self::Config) -> Self;

    /// run() consumes `self` and runs
    fn run(self) -> Self::ExitData;
}

} // verus!
