use ledger_cli::config::Config;
use ledger_cli::operation::{Network, Operation, Target};
use ledger_cli::report::{
    error_report, exit_code, Failure, InstallFailure, Outcome, TransportFailure, UpdateFailure,
};
use ledger_cli::workflow::{
    after_app_listing, after_device_info, after_genuine_check, after_install, after_open,
    after_transport, after_update, start, start_run, Action, Continuation,
};

fn config(command: Option<&str>, testnet: bool, alternate_target: bool) -> Config {
    Config { command: command.map(String::from), testnet, alternate_target }
}

const MANAGER_NOTICE: &str =
    "You may have to allow on your device 1) listing installed apps 2) the Ledger manager to install the app.";

#[test]
fn update_firmware_never_touches_device() {
    let step = start(Operation::UpdateFirmware);
    assert!(step.notices.is_empty());
    assert_eq!(step.cont, Continuation::Finish(Outcome::Failed(Failure::Unimplemented)));

    let step = start_run(&config(Some("updatefirm"), true, true));
    assert!(step.notices.is_empty());
    assert_eq!(step.cont, Continuation::Finish(Outcome::Failed(Failure::Unimplemented)));

    if let Continuation::Finish(outcome) = step.cont {
        assert_eq!(error_report(&outcome), Some(String::from("Firmware update is not implemented.")));
        assert_eq!(exit_code(&outcome), 1);
    } else {
        panic!("firmware update must finish without a device call");
    }
}

#[test]
fn absent_command_prints_usage_and_exits_1() {
    let step = start_run(&config(None, false, false));
    assert!(step.notices.is_empty());
    assert_eq!(step.cont, Continuation::Finish(Outcome::Failed(Failure::Configuration)));

    if let Continuation::Finish(outcome) = step.cont {
        let message = error_report(&outcome).expect("a configuration failure is reported");
        assert_eq!(
            message,
            "Invalid or no command specified. The command must be passed through the LEDGER_COMMAND env var. Set LEDGER_TESTNET to use the Bitcoin testnet app instead where applicable."
        );
        assert_eq!(exit_code(&outcome), 1);
    } else {
        panic!("an absent command must finish without opening any transport");
    }
}

#[test]
fn install_success_scenario() {
    // Command `installapp`, both flags unset, install primitive succeeds.
    let op = Operation::Install { target: Target::Bitcoin, network: Network::Main };

    let step = start_run(&config(Some("installapp"), false, false));
    assert!(step.notices.is_empty());
    assert_eq!(step.cont, Continuation::Act(Action::AcquireTransport(op)));

    let step = after_transport(op, Ok(()));
    assert_eq!(step.notices, vec![String::from(MANAGER_NOTICE)]);
    assert_eq!(step.cont, Continuation::Act(Action::InstallApp(Target::Bitcoin, Network::Main)));

    let step = after_install(Target::Bitcoin, Ok(()));
    assert_eq!(step.notices, vec![String::from("Successfully installed the app.")]);
    assert_eq!(step.cont, Continuation::Finish(Outcome::Success));

    assert_eq!(error_report(&Outcome::Success), None);
    assert_eq!(exit_code(&Outcome::Success), 0);
}

#[test]
fn update_already_latest_scenario() {
    // Command `updateapp`, both flags unset, update primitive reports the
    // application is already at the latest version.
    let op = Operation::Update { target: Target::Bitcoin, network: Network::Main };

    let step = start_run(&config(Some("updateapp"), false, false));
    assert_eq!(step.cont, Continuation::Act(Action::AcquireTransport(op)));

    let step = after_transport(op, Ok(()));
    assert_eq!(step.notices, vec![String::from(MANAGER_NOTICE)]);
    assert_eq!(step.cont, Continuation::Act(Action::UpdateApp(Target::Bitcoin, Network::Main)));

    let step = after_update(Target::Bitcoin, Err(UpdateFailure::AlreadyLatest));
    assert!(step.notices.is_empty());
    let outcome = Outcome::Failed(Failure::Update(Target::Bitcoin, UpdateFailure::AlreadyLatest));
    assert_eq!(step.cont, Continuation::Finish(outcome.clone()));

    assert_eq!(
        error_report(&outcome),
        Some(String::from("Bitcoin app is already at the latest version."))
    );
    assert_eq!(exit_code(&outcome), 1);
}

#[test]
fn getinfo_full_sequence() {
    let step = start_run(&config(Some("getinfo"), false, false));
    assert_eq!(step.cont, Continuation::Act(Action::AcquireTransport(Operation::GetInfo)));

    let step = after_transport(Operation::GetInfo, Ok(()));
    assert!(step.notices.is_empty());
    assert_eq!(step.cont, Continuation::Act(Action::FetchDeviceInfo));

    let step = after_device_info(Ok(String::from("model X, firmware 2.1")));
    assert_eq!(
        step.notices,
        vec![
            String::from("Information about the device: model X, firmware 2.1"),
            String::from(
                "Querying installed applications from your Ledger. You might have to confirm on your device."
            ),
        ]
    );
    assert_eq!(step.cont, Continuation::Act(Action::ListApps));

    let step = after_app_listing(Ok(vec![String::from("Bitcoin 2.2.3"), String::from("Solana 1.4.2")]));
    assert_eq!(
        step.notices,
        vec![
            String::from("Installed applications:"),
            String::from("  - Bitcoin 2.2.3"),
            String::from("  - Solana 1.4.2"),
        ]
    );
    assert_eq!(step.cont, Continuation::Finish(Outcome::Success));
}

#[test]
fn getinfo_with_no_installed_apps() {
    let step = after_app_listing(Ok(Vec::new()));
    assert_eq!(step.notices, vec![String::from("Installed applications:")]);
    assert_eq!(step.cont, Continuation::Finish(Outcome::Success));
}

#[test]
fn device_info_failure_finishes_the_run() {
    let step = after_device_info(Err(String::from("no answer")));
    assert!(step.notices.is_empty());
    let outcome = Outcome::Failed(Failure::DeviceInfo(String::from("no answer")));
    assert_eq!(step.cont, Continuation::Finish(outcome.clone()));
    assert_eq!(error_report(&outcome), Some(String::from("Error fetching device info: no answer")));
}

#[test]
fn app_listing_failure_finishes_the_run() {
    let step = after_app_listing(Err(String::from("refused")));
    assert!(step.notices.is_empty());
    let outcome = Outcome::Failed(Failure::AppListing(String::from("refused")));
    assert_eq!(step.cont, Continuation::Finish(outcome.clone()));
    assert_eq!(
        error_report(&outcome),
        Some(String::from("Error listing installed applications: refused."))
    );
}

#[test]
fn genuine_check_pass_and_fail() {
    let step = after_transport(Operation::GenuineCheck, Ok(()));
    assert_eq!(
        step.notices,
        vec![String::from(
            "Querying Ledger's remote HSM to perform the genuine check. You might have to confirm the operation on your device."
        )]
    );
    assert_eq!(step.cont, Continuation::Act(Action::RunGenuineCheck));

    let step = after_genuine_check(Ok(()));
    assert_eq!(step.notices, vec![String::from("Success. Your Ledger is genuine.")]);
    assert_eq!(step.cont, Continuation::Finish(Outcome::Success));

    let step = after_genuine_check(Err(String::from("not genuine")));
    assert!(step.notices.is_empty());
    let outcome = Outcome::Failed(Failure::Genuine(String::from("not genuine")));
    assert_eq!(step.cont, Continuation::Finish(outcome.clone()));
    assert_eq!(
        error_report(&outcome),
        Some(String::from("Error when performing genuine check: not genuine"))
    );
}

#[test]
fn transport_failures_finish_the_run() {
    let op = Operation::GetInfo;

    let step = after_transport(op, Err(TransportFailure::HidInit(String::from("usb down"))));
    assert!(step.notices.is_empty());
    let outcome = Outcome::Failed(Failure::Transport(TransportFailure::HidInit(String::from("usb down"))));
    assert_eq!(step.cont, Continuation::Finish(outcome.clone()));
    assert_eq!(error_report(&outcome), Some(String::from("Error initializing HDI api: usb down.")));

    let step = after_transport(op, Err(TransportFailure::DeviceOpen(String::from("no device"))));
    let outcome = Outcome::Failed(Failure::Transport(TransportFailure::DeviceOpen(String::from("no device"))));
    assert_eq!(step.cont, Continuation::Finish(outcome.clone()));
    assert_eq!(
        error_report(&outcome),
        Some(String::from("Error connecting to Ledger device: no device."))
    );
    assert_eq!(exit_code(&outcome), 1);
}

#[test]
fn solana_install_and_update_succeed_with_their_own_confirmations() {
    let step = after_install(Target::Solana, Ok(()));
    assert_eq!(step.notices, vec![String::from("Successfully installed the Solana app.")]);
    assert_eq!(step.cont, Continuation::Finish(Outcome::Success));

    let step = after_update(Target::Solana, Ok(()));
    assert_eq!(step.notices, vec![String::from("Successfully updated the Solana app.")]);
    assert_eq!(step.cont, Continuation::Finish(Outcome::Success));
}

#[test]
fn install_failure_kinds_finish_the_run() {
    let step = after_install(Target::Bitcoin, Err(InstallFailure::AlreadyInstalled));
    assert!(step.notices.is_empty());
    assert_eq!(
        step.cont,
        Continuation::Finish(Outcome::Failed(Failure::Install(
            Target::Bitcoin,
            InstallFailure::AlreadyInstalled
        )))
    );

    let step = after_install(Target::Solana, Err(InstallFailure::Other(String::from("timeout"))));
    let outcome = Outcome::Failed(Failure::Install(
        Target::Solana,
        InstallFailure::Other(String::from("timeout")),
    ));
    assert_eq!(step.cont, Continuation::Finish(outcome.clone()));
    assert_eq!(error_report(&outcome), Some(String::from("Error installing Solana app: timeout.")));
}

#[test]
fn open_succeeds_silently_and_reports_failures_verbatim() {
    let step = after_transport(
        Operation::Open { target: Target::Bitcoin, network: Network::Test },
        Ok(()),
    );
    assert!(step.notices.is_empty());
    assert_eq!(step.cont, Continuation::Act(Action::OpenApp(Target::Bitcoin, Network::Test)));

    let step = after_open(Target::Bitcoin, Ok(()));
    assert!(step.notices.is_empty());
    assert_eq!(step.cont, Continuation::Finish(Outcome::Success));

    let step = after_open(Target::Solana, Err(String::from("rejected on device")));
    let outcome = Outcome::Failed(Failure::Open(Target::Solana, String::from("rejected on device")));
    assert_eq!(step.cont, Continuation::Finish(outcome.clone()));
    assert_eq!(
        error_report(&outcome),
        Some(String::from("Error opening Solana app: rejected on device"))
    );
}

#[test]
fn unresolved_configuration_never_dispatches_an_action() {
    for command in [None, Some("firmware"), Some("")] {
        let step = start_run(&config(command, true, true));
        assert!(matches!(step.cont, Continuation::Finish(Outcome::Failed(Failure::Configuration))));
        assert!(step.notices.is_empty());
    }
}
