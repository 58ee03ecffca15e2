//! Process configuration, read once at startup by the (unverified) driver
//! and handed to the library as plain values.

use vstd::prelude::*;

verus! {

/// The ambient configuration a run starts from: a command keyword (absent
/// when the process was given none) and two independent presence-only flags.
pub struct Config {
    /// The command keyword, if one was supplied.
    pub command: Option<String>,
    /// Selects the test network for the primary target, where applicable.
    pub testnet: bool,
    /// Selects the alternate target application, where applicable.
    pub alternate_target: bool,
}

impl Config {
    /// The command keyword as a mathematical value.
    pub open spec fn command_view(&self) -> Option<Seq<char>> {
        match self.command {
            Option::Some(ref c) => Option::Some(c@),
            Option::None => Option::None,
        }
    }
}

} // verus!
