//! The embedder's settings.

use vstd::prelude::*;

verus! {

/// The settings of a session. There are none yet.
#[derive(Clone, Copy, Debug, PartialEq, Eq, Structural)]
pub struct Config {}

impl Config {
    /// The settings that a session starts with.
    pub fn load() -> (config: Self)
        ensures
            config == (Config {  }),
    {
        Config {  }
    }
}

} // verus!
