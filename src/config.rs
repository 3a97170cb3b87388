//! The settings that the tool keeps between runs.
use vstd::prelude::*;

verus! {

/// The stored settings: where the engine lives.
pub struct Config {
    /// The root directory of the engine.
    pub editor_path: String,
}

impl Default for Config {
    /// Settings with no engine set.
    fn default() -> (r: Config)
        ensures
            r.editor_path@ == Seq::<char>::empty(),
    {
        Config { editor_path: String::new() }
    }
}

} // verus!
