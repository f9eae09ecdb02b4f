use std::path::PathBuf;
use t3unlock::cli::{Cli, CliError, Commands, CompletionShell, Plan};
use t3unlock::usb::Model;

fn plan(cmd: Commands) -> Result<Plan, CliError> {
    Cli { cmd }.plan()
}

#[test]
fn status_command_selects_model() {
    match plan(Commands::Status { model: "T5".to_string(), json: true }) {
        Ok(Plan::ShowStatus { selector, json }) => {
            assert_eq!(selector.model, Model::T5);
            assert_eq!(selector.vid, 0x04e8);
            assert_eq!(selector.pid, 0x61f6);
            assert!(json);
        }
        _ => panic!("expected a status plan"),
    }
}

#[test]
fn unknown_model_is_an_error() {
    match plan(Commands::Status { model: "t4".to_string(), json: false }) {
        Err(CliError::UnknownModel(name)) => assert_eq!(name, "t4"),
        _ => panic!("expected an unknown model"),
    }
    match plan(Commands::Unlock {
        model: "x".to_string(),
        password: None,
        dry_run: true,
        timeout_ms: None,
    }) {
        Err(e) => assert_eq!(e, CliError::UnknownModel("x".to_string())),
        _ => panic!("expected an unknown model"),
    }
}

#[test]
fn unlock_command_carries_password_and_timeout() {
    match plan(Commands::Unlock {
        model: "t3".to_string(),
        password: Some("pw".to_string()),
        dry_run: false,
        timeout_ms: Some(500),
    }) {
        Ok(Plan::Unlock { selector, password, timeout_ms }) => {
            assert_eq!(selector.model, Model::T3);
            assert_eq!(selector.pid, 0x61f4);
            assert_eq!(password.as_deref(), Some("pw"));
            assert_eq!(timeout_ms, Some(500));
        }
        _ => panic!("expected an unlock plan"),
    }
}

#[test]
fn dry_run_touches_no_device() {
    match plan(Commands::Unlock {
        model: "T1".to_string(),
        password: None,
        dry_run: true,
        timeout_ms: None,
    }) {
        Ok(Plan::DryRun { model }) => assert_eq!(model, Model::T1),
        _ => panic!("expected a dry run"),
    }
}

#[test]
fn other_commands_pass_through() {
    assert!(matches!(plan(Commands::Doctor {}), Ok(Plan::Doctor)));
    assert!(matches!(
        plan(Commands::GenCompletions { shell: CompletionShell::Zsh }),
        Ok(Plan::GenCompletions { shell: CompletionShell::Zsh })
    ));
    match plan(Commands::GenMan { out: PathBuf::from("./target") }) {
        Ok(Plan::GenMan { out }) => assert_eq!(out, PathBuf::from("./target")),
        _ => panic!("expected a man page plan"),
    }
}

#[test]
fn unknown_model_message() {
    assert_eq!(CliError::UnknownModel("t9".to_string()).message(), "unknown model: t9");
}
