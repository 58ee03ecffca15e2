//! Workflow orchestration: each operation is a short, fixed sequence of
//! device-management steps. The library decides the next step; the
//! (unverified) driver performs the device call an [`Action`] names and
//! hands its result back as plain values to the matching `after_*`
//! function. Any failure finishes the run immediately; nothing is retried.

use vstd::prelude::*;
use vstd::string::*;

use crate::config::Config;
use crate::operation::{Network, Operation, Target};
use crate::report::{
    with_detail, Failure, InstallFailure, Outcome, TransportFailure, UpdateFailure,
};
use crate::resolve::{resolve, spec_resolve};

verus! {

/// A device interaction the driver must perform next.
#[derive(Debug, Clone, Copy, PartialEq, Eq, Structural)]
pub enum Action {
    /// Enumerate and open the local device transport, then continue with
    /// the given operation.
    AcquireTransport(Operation),
    /// Fetch structured device metadata, rendered as text.
    FetchDeviceInfo,
    /// List the installed applications, each rendered as text.
    ListApps,
    /// Run the authenticity challenge-response against the remote verifier.
    RunGenuineCheck,
    /// Install the target application (the network matters only for the
    /// primary target).
    InstallApp(Target, Network),
    /// Update the target application.
    UpdateApp(Target, Network),
    /// Open the target application.
    OpenApp(Target, Network),
}

/// What a step leaves to do: either one more device interaction, or the
/// run's final outcome.
#[derive(Debug, Clone, PartialEq, Eq)]
pub enum Continuation {
    Act(Action),
    Finish(Outcome),
}

/// One step of the run: lines for standard output, then either a device
/// interaction to perform or the final outcome to report.
#[derive(Debug, Clone, PartialEq, Eq)]
pub struct Step {
    /// Lines to print to standard output, in order, before acting on `cont`.
    pub notices: Vec<String>,
    pub cont: Continuation,
}

/// Notice printed before an install or update, which needs confirmation on
/// the device.
pub open spec fn manager_notice_text() -> Seq<char> {
    "You may have to allow on your device 1) listing installed apps 2) the Ledger manager to install the app."@
}

/// Notice printed before the genuine check.
pub open spec fn genuine_notice_text() -> Seq<char> {
    "Querying Ledger's remote HSM to perform the genuine check. You might have to confirm the operation on your device."@
}

/// Notice printed before listing the installed applications.
pub open spec fn list_apps_notice_text() -> Seq<char> {
    "Querying installed applications from your Ledger. You might have to confirm on your device."@
}

/// Prefix of the line that carries the rendered device metadata.
pub open spec fn device_info_prefix_text() -> Seq<char> {
    "Information about the device: "@
}

/// Header line above the application list.
pub open spec fn apps_header_text() -> Seq<char> {
    "Installed applications:"@
}

/// Prefix of each line of the application list.
pub open spec fn app_line_prefix_text() -> Seq<char> {
    "  - "@
}

/// Confirmation printed when the genuine check passes.
pub open spec fn genuine_success_text() -> Seq<char> {
    "Success. Your Ledger is genuine."@
}

/// Confirmation printed when an install succeeds.
pub open spec fn install_success_text(target: Target) -> Seq<char> {
    if target is Bitcoin {
        "Successfully installed the app."@
    } else {
        "Successfully installed the Solana app."@
    }
}

/// Confirmation printed when an update succeeds.
pub open spec fn update_success_text(target: Target) -> Seq<char> {
    if target is Bitcoin {
        "Successfully updated the app."@
    } else {
        "Successfully updated the Solana app."@
    }
}

/// What the first step after transport acquisition is for each operation:
/// its first device call with its notices, except firmware update, which
/// finishes at once with the not-implemented failure.
pub open spec fn dispatched(op: Operation, s: Step) -> bool {
    match op {
        Operation::GetInfo => s.cont == Continuation::Act(Action::FetchDeviceInfo)
            && s.notices@.len() == 0,
        Operation::GenuineCheck => s.cont == Continuation::Act(Action::RunGenuineCheck)
            && s.notices@.len() == 1 && s.notices@[0]@ == genuine_notice_text(),
        Operation::Install { target, network } => s.cont == Continuation::Act(
            Action::InstallApp(target, network),
        ) && s.notices@.len() == 1 && s.notices@[0]@ == manager_notice_text(),
        Operation::Update { target, network } => s.cont == Continuation::Act(
            Action::UpdateApp(target, network),
        ) && s.notices@.len() == 1 && s.notices@[0]@ == manager_notice_text(),
        Operation::Open { target, network } => s.cont == Continuation::Act(
            Action::OpenApp(target, network),
        ) && s.notices@.len() == 0,
        Operation::UpdateFirmware => s.cont == Continuation::Finish(
            Outcome::Failed(Failure::Unimplemented),
        ) && s.notices@.len() == 0,
    }
}

/// What beginning a run for an operation yields: firmware update finishes
/// at once with the not-implemented failure, without any device
/// interaction (not even acquiring a transport); every other operation
/// first asks for the transport.
pub open spec fn started(op: Operation, s: Step) -> bool {
    &&& s.notices@.len() == 0
    &&& if op is UpdateFirmware {
        s.cont == Continuation::Finish(Outcome::Failed(Failure::Unimplemented))
    } else {
        s.cont == Continuation::Act(Action::AcquireTransport(op))
    }
}

/// Begin the workflow for a resolved operation.
pub fn start(op: Operation) -> (s: Step)
    ensures
        started(op, s),
{
    match op {
        Operation::UpdateFirmware => Step {
            notices: Vec::new(),
            cont: Continuation::Finish(Outcome::Failed(Failure::Unimplemented)),
        },
        _ => Step { notices: Vec::new(), cont: Continuation::Act(Action::AcquireTransport(op)) },
    }
}

/// Begin a whole run from the configuration: resolve the command and begin
/// its workflow. A configuration that does not resolve finishes at once
/// with the configuration failure, so no device interaction is ever asked
/// for on such a configuration.
pub fn start_run(config: &Config) -> (s: Step)
    ensures
        spec_resolve(config.command_view(), config.testnet, config.alternate_target) is None
            ==> s.cont == Continuation::Finish(Outcome::Failed(Failure::Configuration))
            && s.notices@.len() == 0,
        spec_resolve(config.command_view(), config.testnet, config.alternate_target) matches Option::Some(
            op,
        ) ==> started(op, s),
{
    match resolve(config) {
        Option::Some(op) => start(op),
        Option::None => Step {
            notices: Vec::new(),
            cont: Continuation::Finish(Outcome::Failed(Failure::Configuration)),
        },
    }
}

/// Continue after the driver tried to acquire the transport: any failure
/// finishes the run with the transport failure; on success the operation's
/// first device call is dispatched.
pub fn after_transport(op: Operation, outcome: Result<(), TransportFailure>) -> (s: Step)
    ensures
        outcome matches Result::Err(f) ==> s.cont == Continuation::Finish(
            Outcome::Failed(Failure::Transport(f)),
        ) && s.notices@.len() == 0,
        outcome is Ok ==> dispatched(op, s),
{
    match outcome {
        Result::Err(f) => Step {
            notices: Vec::new(),
            cont: Continuation::Finish(Outcome::Failed(Failure::Transport(f))),
        },
        Result::Ok(()) => match op {
            Operation::GetInfo => Step {
                notices: Vec::new(),
                cont: Continuation::Act(Action::FetchDeviceInfo),
            },
            Operation::GenuineCheck => {
                let mut notices: Vec<String> = Vec::new();
                notices.push(
                    String::from_str(
                        "Querying Ledger's remote HSM to perform the genuine check. You might have to confirm the operation on your device.",
                    ),
                );
                Step { notices, cont: Continuation::Act(Action::RunGenuineCheck) }
            },
            Operation::Install { target, network } => {
                let mut notices: Vec<String> = Vec::new();
                notices.push(
                    String::from_str(
                        "You may have to allow on your device 1) listing installed apps 2) the Ledger manager to install the app.",
                    ),
                );
                Step { notices, cont: Continuation::Act(Action::InstallApp(target, network)) }
            },
            Operation::Update { target, network } => {
                let mut notices: Vec<String> = Vec::new();
                notices.push(
                    String::from_str(
                        "You may have to allow on your device 1) listing installed apps 2) the Ledger manager to install the app.",
                    ),
                );
                Step { notices, cont: Continuation::Act(Action::UpdateApp(target, network)) }
            },
            Operation::Open { target, network } => Step {
                notices: Vec::new(),
                cont: Continuation::Act(Action::OpenApp(target, network)),
            },
            Operation::UpdateFirmware => Step {
                notices: Vec::new(),
                cont: Continuation::Finish(Outcome::Failed(Failure::Unimplemented)),
            },
        },
    }
}

/// Continue after the device-metadata fetch: on success the rendered
/// metadata is printed and the application listing is asked for next; on
/// failure the run finishes with the device-query failure.
pub fn after_device_info(outcome: Result<String, String>) -> (s: Step)
    ensures
        outcome matches Result::Ok(info) ==> s.cont == Continuation::Act(Action::ListApps)
            && s.notices@.len() == 2 && s.notices@[0]@ == device_info_prefix_text() + info@
            && s.notices@[1]@ == list_apps_notice_text(),
        outcome matches Result::Err(e) ==> s.cont == Continuation::Finish(
            Outcome::Failed(Failure::DeviceInfo(e)),
        ) && s.notices@.len() == 0,
{
    match outcome {
        Result::Ok(info) => {
            let mut notices: Vec<String> = Vec::new();
            notices.push(with_detail("Information about the device: ", &info));
            notices.push(
                String::from_str(
                    "Querying installed applications from your Ledger. You might have to confirm on your device.",
                ),
            );
            Step { notices, cont: Continuation::Act(Action::ListApps) }
        },
        Result::Err(e) => Step {
            notices: Vec::new(),
            cont: Continuation::Finish(Outcome::Failed(Failure::DeviceInfo(e))),
        },
    }
}

/// Continue after the application listing: on success the run finishes
/// successfully, printing the header and one indented line per installed
/// application, in order; on failure it finishes with the listing failure.
pub fn after_app_listing(outcome: Result<Vec<String>, String>) -> (s: Step)
    ensures
        outcome matches Result::Ok(apps) ==> s.cont == Continuation::Finish(Outcome::Success)
            && s.notices@.len() == apps@.len() + 1 && s.notices@[0]@ == apps_header_text() && (
        forall|i: int|
            0 <= i < apps@.len() ==> s.notices@[i + 1]@ == app_line_prefix_text() + apps@[i]@),
        outcome matches Result::Err(e) ==> s.cont == Continuation::Finish(
            Outcome::Failed(Failure::AppListing(e)),
        ) && s.notices@.len() == 0,
{
    match outcome {
        Result::Ok(apps) => {
            let mut notices: Vec<String> = Vec::new();
            notices.push(String::from_str("Installed applications:"));
            let mut i: usize = 0;
            while i < apps.len()
                invariant
                    i <= apps@.len(),
                    notices@.len() == i + 1,
                    notices@[0]@ == apps_header_text(),
                    forall|j: int|
                        0 <= j < i ==> notices@[j + 1]@ == app_line_prefix_text() + apps@[j]@,
                decreases apps@.len() - i,
            {
                notices.push(with_detail("  - ", &apps[i]));
                i += 1;
            }
            Step { notices, cont: Continuation::Finish(Outcome::Success) }
        },
        Result::Err(e) => Step {
            notices: Vec::new(),
            cont: Continuation::Finish(Outcome::Failed(Failure::AppListing(e))),
        },
    }
}

/// Continue after the authenticity check: a pass finishes the run
/// successfully with the confirmation line; anything else finishes with
/// the genuine-check failure, and the run never proceeds past it.
pub fn after_genuine_check(outcome: Result<(), String>) -> (s: Step)
    ensures
        outcome is Ok ==> s.cont == Continuation::Finish(Outcome::Success) && s.notices@.len() == 1
            && s.notices@[0]@ == genuine_success_text(),
        outcome matches Result::Err(e) ==> s.cont == Continuation::Finish(
            Outcome::Failed(Failure::Genuine(e)),
        ) && s.notices@.len() == 0,
{
    match outcome {
        Result::Ok(()) => {
            let mut notices: Vec<String> = Vec::new();
            notices.push(String::from_str("Success. Your Ledger is genuine."));
            Step { notices, cont: Continuation::Finish(Outcome::Success) }
        },
        Result::Err(e) => Step {
            notices: Vec::new(),
            cont: Continuation::Finish(Outcome::Failed(Failure::Genuine(e))),
        },
    }
}

/// Continue after the install primitive: success finishes the run with the
/// confirmation line; each failure kind finishes with the install failure
/// for the target.
pub fn after_install(target: Target, outcome: Result<(), InstallFailure>) -> (s: Step)
    ensures
        outcome is Ok ==> s.cont == Continuation::Finish(Outcome::Success) && s.notices@.len() == 1
            && s.notices@[0]@ == install_success_text(target),
        outcome matches Result::Err(f) ==> s.cont == Continuation::Finish(
            Outcome::Failed(Failure::Install(target, f)),
        ) && s.notices@.len() == 0,
{
    match outcome {
        Result::Ok(()) => {
            let mut notices: Vec<String> = Vec::new();
            match target {
                Target::Bitcoin => notices.push(String::from_str("Successfully installed the app.")),
                Target::Solana => notices.push(
                    String::from_str("Successfully installed the Solana app."),
                ),
            }
            Step { notices, cont: Continuation::Finish(Outcome::Success) }
        },
        Result::Err(f) => Step {
            notices: Vec::new(),
            cont: Continuation::Finish(Outcome::Failed(Failure::Install(target, f))),
        },
    }
}

/// Continue after the update primitive: success finishes the run with the
/// confirmation line; each failure kind finishes with the update failure
/// for the target.
pub fn after_update(target: Target, outcome: Result<(), UpdateFailure>) -> (s: Step)
    ensures
        outcome is Ok ==> s.cont == Continuation::Finish(Outcome::Success) && s.notices@.len() == 1
            && s.notices@[0]@ == update_success_text(target),
        outcome matches Result::Err(f) ==> s.cont == Continuation::Finish(
            Outcome::Failed(Failure::Update(target, f)),
        ) && s.notices@.len() == 0,
{
    match outcome {
        Result::Ok(()) => {
            let mut notices: Vec<String> = Vec::new();
            match target {
                Target::Bitcoin => notices.push(String::from_str("Successfully updated the app.")),
                Target::Solana => notices.push(
                    String::from_str("Successfully updated the Solana app."),
                ),
            }
            Step { notices, cont: Continuation::Finish(Outcome::Success) }
        },
        Result::Err(f) => Step {
            notices: Vec::new(),
            cont: Continuation::Finish(Outcome::Failed(Failure::Update(target, f))),
        },
    }
}

/// Continue after the open primitive: success finishes the run silently;
/// any failure finishes with the open failure, reported verbatim.
pub fn after_open(target: Target, outcome: Result<(), String>) -> (s: Step)
    ensures
        outcome is Ok ==> s.cont == Continuation::Finish(Outcome::Success) && s.notices@.len()
            == 0,
        outcome matches Result::Err(e) ==> s.cont == Continuation::Finish(
            Outcome::Failed(Failure::Open(target, e)),
        ) && s.notices@.len() == 0,
{
    match outcome {
        Result::Ok(()) => Step { notices: Vec::new(), cont: Continuation::Finish(Outcome::Success) },
        Result::Err(e) => Step {
            notices: Vec::new(),
            cont: Continuation::Finish(Outcome::Failed(Failure::Open(target, e))),
        },
    }
}

} // verus!
