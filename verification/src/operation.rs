//! The closed set of operations the tool can perform on the device.

use vstd::prelude::*;

verus! {

/// The on-device application an install/update/open operation acts on.
///
/// `Bitcoin` is the primary target; `Solana` is the alternate target.
#[derive(Debug, Clone, Copy, PartialEq, Eq, Structural)]
pub enum Target {
    Bitcoin,
    Solana,
}

/// Main-network vs. test-network variant of an application.
///
/// Only meaningful for the primary ([`Target::Bitcoin`]) target; the
/// alternate target ignores it.
#[derive(Debug, Clone, Copy, PartialEq, Eq, Structural)]
pub enum Network {
    Main,
    Test,
}

/// Exactly one operation is resolved from configuration and executed per run.
#[derive(Debug, Clone, Copy, PartialEq, Eq, Structural)]
pub enum Operation {
    GetInfo,
    GenuineCheck,
    Install { target: Target, network: Network },
    Update { target: Target, network: Network },
    Open { target: Target, network: Network },
    UpdateFirmware,
}

} // verus!
