//! Command resolution: a pure function from configuration to exactly one
//! [`Operation`], or a resolution failure when the command keyword is
//! missing or unrecognized.

use vstd::prelude::*;
use vstd::string::*;

use crate::config::Config;
use crate::operation::{Network, Operation, Target};

verus! {

/// The target selected for install/update/open: the alternate-target flag
/// takes precedence and selects the alternate application.
pub open spec fn selected_target(alternate_target: bool) -> Target {
    if alternate_target {
        Target::Solana
    } else {
        Target::Bitcoin
    }
}

/// The network selected for install/update/open: the testnet flag selects
/// the test network, but only for the primary target (the alternate target
/// ignores the network and is resolved with the main network).
pub open spec fn selected_network(alternate_target: bool, testnet: bool) -> Network {
    if !alternate_target && testnet {
        Network::Test
    } else {
        Network::Main
    }
}

/// Whether a command keyword is one of the recognized commands.
pub open spec fn recognized_keyword(cmd: Seq<char>) -> bool {
    ||| cmd == "getinfo"@
    ||| cmd == "genuinecheck"@
    ||| cmd == "installapp"@
    ||| cmd == "updateapp"@
    ||| cmd == "openapp"@
    ||| cmd == "updatefirm"@
}

/// What resolution returns for a given configuration: exactly one operation
/// for a recognized keyword, and nothing for a missing or unrecognized one.
pub open spec fn spec_resolve(
    command: Option<Seq<char>>,
    testnet: bool,
    alternate_target: bool,
) -> Option<Operation> {
    match command {
        Option::None => Option::None,
        Option::Some(cmd) => if cmd == "getinfo"@ {
            Option::Some(Operation::GetInfo)
        } else if cmd == "genuinecheck"@ {
            Option::Some(Operation::GenuineCheck)
        } else if cmd == "installapp"@ {
            Option::Some(
                Operation::Install {
                    target: selected_target(alternate_target),
                    network: selected_network(alternate_target, testnet),
                },
            )
        } else if cmd == "updateapp"@ {
            Option::Some(
                Operation::Update {
                    target: selected_target(alternate_target),
                    network: selected_network(alternate_target, testnet),
                },
            )
        } else if cmd == "openapp"@ {
            Option::Some(
                Operation::Open {
                    target: selected_target(alternate_target),
                    network: selected_network(alternate_target, testnet),
                },
            )
        } else if cmd == "updatefirm"@ {
            Option::Some(Operation::UpdateFirmware)
        } else {
            Option::None
        },
    }
}

/// Whether the command keyword equals the given recognized keyword.
fn keyword_is(cmd: &String, keyword: &str) -> (r: bool)
    ensures
        r == (cmd@ == keyword@),
{
    let k = String::from_str(keyword);
    *cmd == k
}

/// Resolve the configuration into exactly one operation, or fail when the
/// command keyword is missing or unrecognized. Pure: no side effects, and
/// the result is a function of the configuration alone.
pub fn resolve(config: &Config) -> (r: Option<Operation>)
    ensures
        r == spec_resolve(config.command_view(), config.testnet, config.alternate_target),
{
    let cmd = match &config.command {
        Option::Some(c) => c,
        Option::None => {
            return Option::None;
        },
    };
    let target = if config.alternate_target {
        Target::Solana
    } else {
        Target::Bitcoin
    };
    let network = if !config.alternate_target && config.testnet {
        Network::Test
    } else {
        Network::Main
    };
    if keyword_is(cmd, "getinfo") {
        Option::Some(Operation::GetInfo)
    } else if keyword_is(cmd, "genuinecheck") {
        Option::Some(Operation::GenuineCheck)
    } else if keyword_is(cmd, "installapp") {
        Option::Some(Operation::Install { target, network })
    } else if keyword_is(cmd, "updateapp") {
        Option::Some(Operation::Update { target, network })
    } else if keyword_is(cmd, "openapp") {
        Option::Some(Operation::Open { target, network })
    } else if keyword_is(cmd, "updatefirm") {
        Option::Some(Operation::UpdateFirmware)
    } else {
        Option::None
    }
}

/// Resolution is total-or-fail: it succeeds exactly on the recognized
/// command keywords, whatever the two flags hold. A missing or
/// unrecognized keyword resolves to nothing, and a run then finishes with
/// the configuration failure before any device interaction is asked for
/// (see [`crate::workflow::start_run`]).
pub proof fn lemma_resolution_exactly_on_recognized_keywords(
    command: Option<Seq<char>>,
    testnet: bool,
    alternate_target: bool,
)
    ensures
        (spec_resolve(command, testnet, alternate_target) is Some) <==> (command matches Option::Some(
            cmd,
        ) && recognized_keyword(cmd)),
{
}

/// With the alternate-target flag set, `installapp` resolves to the
/// alternate application, whatever the testnet flag holds (the alternate
/// target ignores the network, which is resolved as the main network).
pub proof fn lemma_install_alternate_precedence(testnet: bool)
    ensures
        spec_resolve(Option::Some("installapp"@), testnet, true) == Option::Some(
            Operation::Install { target: Target::Solana, network: Network::Main },
        ),
{
    reveal_strlit("installapp");
    reveal_strlit("getinfo");
    reveal_strlit("genuinecheck");
    assert("installapp"@.len() != "getinfo"@.len());
    assert("installapp"@.len() != "genuinecheck"@.len());
}

/// `updatefirm` always resolves, to the firmware-update operation, whatever
/// the two flags hold. Its workflow then always finishes with the
/// not-implemented failure, without any device interaction: see
/// [`crate::workflow::start`].
pub proof fn lemma_update_firmware_always_resolves(testnet: bool, alternate_target: bool)
    ensures
        spec_resolve(Option::Some("updatefirm"@), testnet, alternate_target) == Option::Some(
            Operation::UpdateFirmware,
        ),
{
    reveal_strlit("updatefirm");
    reveal_strlit("getinfo");
    reveal_strlit("genuinecheck");
    reveal_strlit("installapp");
    reveal_strlit("updateapp");
    reveal_strlit("openapp");
    assert("updatefirm"@.len() != "getinfo"@.len());
    assert("updatefirm"@.len() != "genuinecheck"@.len());
    assert("updatefirm"@[0] != "installapp"@[0]);
    assert("updatefirm"@ != "installapp"@);
    assert("updatefirm"@.len() != "updateapp"@.len());
    assert("updatefirm"@.len() != "openapp"@.len());
}

} // verus!
