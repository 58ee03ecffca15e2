//! The error taxonomy, the message for every failure kind, and the
//! process-exit mapping: one line on the error stream and a non-zero status
//! for any failure, status zero and no error output for success.

use vstd::prelude::*;
use vstd::string::*;

use crate::operation::Target;

verus! {

/// A failure while acquiring the device transport.
#[derive(Debug, Clone, PartialEq, Eq)]
pub enum TransportFailure {
    /// The HID enumeration subsystem failed to initialize.
    HidInit(String),
    /// No device was found, or opening the device failed.
    DeviceOpen(String),
}

/// The install primitive's failure kinds.
#[derive(Debug, Clone, PartialEq, Eq)]
pub enum InstallFailure {
    AlreadyInstalled,
    AppNotFound,
    Other(String),
}

/// The update primitive's failure kinds.
#[derive(Debug, Clone, PartialEq, Eq)]
pub enum UpdateFailure {
    NotInstalled,
    AppNotFound,
    AlreadyLatest,
    Other(String),
}

/// Every way a run can fail. Each kind carries what its message needs; an
/// opaque underlying error is carried as its rendered text.
#[derive(Debug, Clone, PartialEq, Eq)]
pub enum Failure {
    /// Missing or unrecognized command keyword.
    Configuration,
    /// The physical channel could not be acquired.
    Transport(TransportFailure),
    /// Fetching device metadata failed.
    DeviceInfo(String),
    /// Listing the installed applications failed.
    AppListing(String),
    /// The authenticity check failed or came back negative.
    Genuine(String),
    /// Installing the target application failed.
    Install(Target, InstallFailure),
    /// Updating the target application failed.
    Update(Target, UpdateFailure),
    /// Opening the target application failed.
    Open(Target, String),
    /// The firmware-update workflow is an explicit non-goal.
    Unimplemented,
}

/// The final outcome of a run.
#[derive(Debug, Clone, PartialEq, Eq)]
pub enum Outcome {
    Success,
    Failed(Failure),
}

/// The message for an application whose metadata could not be fetched.
pub open spec fn app_not_found_text(target: Target) -> Seq<char> {
    if target is Bitcoin {
        "Could not get info about Bitcoin app."@
    } else {
        "Could not get info about Solana app."@
    }
}

/// The one-line human-readable message for each failure kind.
pub open spec fn spec_failure_message(f: Failure) -> Seq<char> {
    match f {
        Failure::Configuration => "Invalid or no command specified. The command must be passed through the LEDGER_COMMAND env var. Set LEDGER_TESTNET to use the Bitcoin testnet app instead where applicable."@,
        Failure::Transport(TransportFailure::HidInit(e)) => "Error initializing HDI api: "@ + e@
            + "."@,
        Failure::Transport(TransportFailure::DeviceOpen(e)) => "Error connecting to Ledger device: "@
            + e@ + "."@,
        Failure::DeviceInfo(e) => "Error fetching device info: "@ + e@,
        Failure::AppListing(e) => "Error listing installed applications: "@ + e@ + "."@,
        Failure::Genuine(e) => "Error when performing genuine check: "@ + e@,
        Failure::Install(t, InstallFailure::AlreadyInstalled) => if t is Bitcoin {
            "Bitcoin app already installed. Use the update command to update it."@
        } else {
            "Solana app already installed. Use the update command to update it."@
        },
        Failure::Install(t, InstallFailure::AppNotFound) => app_not_found_text(t),
        Failure::Install(t, InstallFailure::Other(e)) => (if t is Bitcoin {
            "Error installing Bitcoin app: "@
        } else {
            "Error installing Solana app: "@
        }) + e@ + "."@,
        Failure::Update(t, UpdateFailure::NotInstalled) => if t is Bitcoin {
            "Bitcoin app isn't installed. Use the install command instead."@
        } else {
            "Solana app isn't installed. Use the install command instead."@
        },
        Failure::Update(t, UpdateFailure::AppNotFound) => app_not_found_text(t),
        Failure::Update(t, UpdateFailure::AlreadyLatest) => if t is Bitcoin {
            "Bitcoin app is already at the latest version."@
        } else {
            "Solana app is already at the latest version."@
        },
        Failure::Update(t, UpdateFailure::Other(e)) => (if t is Bitcoin {
            "Error installing Bitcoin app: "@
        } else {
            "Error updating Solana app: "@
        }) + e@ + "."@,
        Failure::Open(t, e) => (if t is Bitcoin {
            "Error opening Bitcoin app: "@
        } else {
            "Error opening Solana app: "@
        }) + e@,
        Failure::Unimplemented => "Firmware update is not implemented."@,
    }
}

/// A prefix followed by the rendered underlying error.
pub(crate) fn with_detail(prefix: &str, detail: &String) -> (r: String)
    ensures
        r@ == prefix@ + detail@,
{
    let mut m = String::from_str(prefix);
    m.append(detail.as_str());
    m
}

/// A prefix, the rendered underlying error, and a closing period.
pub(crate) fn with_detail_dot(prefix: &str, detail: &String) -> (r: String)
    ensures
        r@ == prefix@ + detail@ + "."@,
{
    let mut m = with_detail(prefix, detail);
    m.append(".");
    m
}

/// Render the one-line message for a failure.
pub fn failure_message(f: &Failure) -> (m: String)
    ensures
        m@ == spec_failure_message(*f),
{
    match f {
        Failure::Configuration => String::from_str(
            "Invalid or no command specified. The command must be passed through the LEDGER_COMMAND env var. Set LEDGER_TESTNET to use the Bitcoin testnet app instead where applicable.",
        ),
        Failure::Transport(TransportFailure::HidInit(e)) => with_detail_dot(
            "Error initializing HDI api: ",
            e,
        ),
        Failure::Transport(TransportFailure::DeviceOpen(e)) => with_detail_dot(
            "Error connecting to Ledger device: ",
            e,
        ),
        Failure::DeviceInfo(e) => with_detail("Error fetching device info: ", e),
        Failure::AppListing(e) => with_detail_dot("Error listing installed applications: ", e),
        Failure::Genuine(e) => with_detail("Error when performing genuine check: ", e),
        Failure::Install(t, InstallFailure::AlreadyInstalled) => match t {
            Target::Bitcoin => String::from_str(
                "Bitcoin app already installed. Use the update command to update it.",
            ),
            Target::Solana => String::from_str(
                "Solana app already installed. Use the update command to update it.",
            ),
        },
        Failure::Install(t, InstallFailure::AppNotFound) => match t {
            Target::Bitcoin => String::from_str("Could not get info about Bitcoin app."),
            Target::Solana => String::from_str("Could not get info about Solana app."),
        },
        Failure::Install(t, InstallFailure::Other(e)) => match t {
            Target::Bitcoin => with_detail_dot("Error installing Bitcoin app: ", e),
            Target::Solana => with_detail_dot("Error installing Solana app: ", e),
        },
        Failure::Update(t, UpdateFailure::NotInstalled) => match t {
            Target::Bitcoin => String::from_str(
                "Bitcoin app isn't installed. Use the install command instead.",
            ),
            Target::Solana => String::from_str(
                "Solana app isn't installed. Use the install command instead.",
            ),
        },
        Failure::Update(t, UpdateFailure::AppNotFound) => match t {
            Target::Bitcoin => String::from_str("Could not get info about Bitcoin app."),
            Target::Solana => String::from_str("Could not get info about Solana app."),
        },
        Failure::Update(t, UpdateFailure::AlreadyLatest) => match t {
            Target::Bitcoin => String::from_str("Bitcoin app is already at the latest version."),
            Target::Solana => String::from_str("Solana app is already at the latest version."),
        },
        Failure::Update(t, UpdateFailure::Other(e)) => match t {
            Target::Bitcoin => with_detail_dot("Error installing Bitcoin app: ", e),
            Target::Solana => with_detail_dot("Error updating Solana app: ", e),
        },
        Failure::Open(t, e) => match t {
            Target::Bitcoin => with_detail("Error opening Bitcoin app: ", e),
            Target::Solana => with_detail("Error opening Solana app: ", e),
        },
        Failure::Unimplemented => String::from_str("Firmware update is not implemented."),
    }
}

/// The process exit status for an outcome: zero exactly on success.
pub open spec fn spec_exit_code(o: Outcome) -> int {
    if o is Success {
        0
    } else {
        1
    }
}

/// The exit status the process must terminate with.
pub fn exit_code(outcome: &Outcome) -> (c: i32)
    ensures
        c == spec_exit_code(*outcome),
{
    match outcome {
        Outcome::Success => 0,
        Outcome::Failed(_) => 1,
    }
}

/// Every documented install/update failure kind — already-installed,
/// app-not-found, not-installed, already-latest — has a non-empty message
/// of its own: for either target the four messages are pairwise distinct.
/// Every failure exits with a non-zero status, and success exits with
/// status zero (and, by [`error_report`], with no error-stream output).
pub proof fn lemma_install_update_failures_reported_distinctly(target: Target)
    ensures
        spec_failure_message(Failure::Install(target, InstallFailure::AlreadyInstalled)).len() > 0,
        spec_failure_message(Failure::Install(target, InstallFailure::AppNotFound)).len() > 0,
        spec_failure_message(Failure::Update(target, UpdateFailure::NotInstalled)).len() > 0,
        spec_failure_message(Failure::Update(target, UpdateFailure::AlreadyLatest)).len() > 0,
        spec_failure_message(Failure::Install(target, InstallFailure::AlreadyInstalled))
            != spec_failure_message(Failure::Install(target, InstallFailure::AppNotFound)),
        spec_failure_message(Failure::Install(target, InstallFailure::AlreadyInstalled))
            != spec_failure_message(Failure::Update(target, UpdateFailure::NotInstalled)),
        spec_failure_message(Failure::Install(target, InstallFailure::AlreadyInstalled))
            != spec_failure_message(Failure::Update(target, UpdateFailure::AlreadyLatest)),
        spec_failure_message(Failure::Install(target, InstallFailure::AppNotFound))
            != spec_failure_message(Failure::Update(target, UpdateFailure::NotInstalled)),
        spec_failure_message(Failure::Install(target, InstallFailure::AppNotFound))
            != spec_failure_message(Failure::Update(target, UpdateFailure::AlreadyLatest)),
        spec_failure_message(Failure::Update(target, UpdateFailure::NotInstalled))
            != spec_failure_message(Failure::Update(target, UpdateFailure::AlreadyLatest)),
        forall|f: Failure| spec_exit_code(Outcome::Failed(f)) != 0,
        spec_exit_code(Outcome::Success) == 0,
{
    let a = spec_failure_message(Failure::Install(target, InstallFailure::AlreadyInstalled));
    let b = spec_failure_message(Failure::Install(target, InstallFailure::AppNotFound));
    let c = spec_failure_message(Failure::Update(target, UpdateFailure::NotInstalled));
    let d = spec_failure_message(Failure::Update(target, UpdateFailure::AlreadyLatest));
    match target {
        Target::Bitcoin => {
            reveal_strlit("Bitcoin app already installed. Use the update command to update it.");
            reveal_strlit("Could not get info about Bitcoin app.");
            reveal_strlit("Bitcoin app isn't installed. Use the install command instead.");
            reveal_strlit("Bitcoin app is already at the latest version.");
            assert(a[0] != b[0]);
            assert(b[0] != c[0]);
            assert(b[0] != d[0]);
            assert(a[12] != c[12]);
            assert(a[12] != d[12]);
            assert(c[14] != d[14]);
        },
        Target::Solana => {
            reveal_strlit("Solana app already installed. Use the update command to update it.");
            reveal_strlit("Could not get info about Solana app.");
            reveal_strlit("Solana app isn't installed. Use the install command instead.");
            reveal_strlit("Solana app is already at the latest version.");
            assert(a[0] != b[0]);
            assert(b[0] != c[0]);
            assert(b[0] != d[0]);
            assert(a[11] != c[11]);
            assert(a[11] != d[11]);
            assert(c[13] != d[13]);
        },
    }
}

/// What goes to the error stream: nothing on success, exactly the failure's
/// message otherwise.
pub fn error_report(outcome: &Outcome) -> (r: Option<String>)
    ensures
        (*outcome) is Success ==> r is None,
        (*outcome) matches Outcome::Failed(f) ==> (r matches Option::Some(m) && m@
            == spec_failure_message(f)),
{
    match outcome {
        Outcome::Success => Option::None,
        Outcome::Failed(f) => Option::Some(failure_message(f)),
    }
}

} // verus!
