use python_manager::cmd::drain::{DrainEvent, Emission, Stream};
use python_manager::cmd::error::VenvError;
use python_manager::cmd::utils::{
    activate_venv_shell, confirm, confirm_prompt, create_child_cmd, get_parent_shell,
    is_command_available, probe, run_command, Completion, Stdio,
};
use python_manager::notice::Tone;
use python_manager::platform::Platform;

#[test]
fn test_is_command_available() {
    let invocation = probe("ls", "--version");
    assert_eq!(invocation.program, "ls");
    assert_eq!(invocation.args, vec!["--version".to_string()]);
    assert_eq!(invocation.stdio, Stdio::Null);
    let available = is_command_available(&Completion::Exited { success: true });
    assert_eq!(available, true);
}

#[test]
fn test_create_child_cmd() {
    let cmd = "ls";
    let args = &["-lah", "|", "grep python-manager"];
    let child = create_child_cmd(cmd, args);
    assert_eq!(child.program, "ls");
    assert_eq!(
        child.args,
        vec!["-lah".to_string(), "|".to_string(), "grep python-manager".to_string()]
    );
    assert_eq!(child.stdio, Stdio::Piped);
}

#[test]
fn test_run_command() {
    let events = vec![
        DrainEvent::Line { stream: Stream::Stderr, text: "ls: cannot access '|'".to_string() },
        DrainEvent::Closed(Stream::Stdout),
        DrainEvent::Closed(Stream::Stderr),
        DrainEvent::Exited { success: false },
    ];
    let report = run_command(&events);
    assert_eq!(
        report.emissions,
        vec![Emission::Line { stream: Stream::Stderr, text: "ls: cannot access '|'".to_string() }]
    );
    assert_eq!(report.outcome, Some(Err(VenvError::CommandFailed)));
}

#[test]
fn a_command_is_unavailable_when_its_probe_fails() {
    assert!(!is_command_available(&Completion::Exited { success: false }));
    assert!(!is_command_available(&Completion::Failed("No such file or directory".to_string())));
}

#[test]
fn create_child_cmd_without_arguments() {
    let none: [&str; 0] = [];
    let child = create_child_cmd("uv", &none);
    assert_eq!(child.program, "uv");
    assert!(child.args.is_empty());
    assert_eq!(child.stdio, Stdio::Piped);
}

#[test]
fn the_shell_shares_the_terminal() {
    let shell = activate_venv_shell("/bin/zsh", vec!["-c".to_string(), "true".to_string()]);
    assert_eq!(shell.program, "/bin/zsh");
    assert_eq!(shell.args, vec!["-c".to_string(), "true".to_string()]);
    assert_eq!(shell.stdio, Stdio::Inherit);
}

#[test]
fn confirm_accepts_only_y() {
    assert!(confirm("y"));
    assert!(confirm("y\n"));
    assert!(confirm("  y \r\n"));
    assert!(confirm("\ty\u{a0}"));
    assert!(!confirm(""));
    assert!(!confirm("\n"));
    assert!(!confirm("n"));
    assert!(!confirm("Y"));
    assert!(!confirm("yes"));
    assert!(!confirm("y y"));
    assert!(!confirm("ny"));
}

#[test]
fn confirm_agrees_with_trim() {
    let answers = [
        "y", " y", "y ", "\u{2003}y\u{3000}", "\u{200b}y", "\u{85}y\u{1680}", "y\u{2028}\u{2029}",
        "\u{202f}y\u{205f}", "\u{feff}y", "yy", " ", "\u{b}y\u{c}",
    ];
    for answer in answers {
        assert_eq!(confirm(answer), answer.trim() == "y", "{:?}", answer);
    }
}

#[test]
fn the_prompt_asks_to_continue() {
    let prompt = confirm_prompt();
    assert_eq!(prompt.tone, Tone::Info);
    assert_eq!(prompt.text, "Do you want to continue? (y/n): ");
}

#[test]
fn the_parent_shell_is_powershell_on_windows() {
    assert_eq!(get_parent_shell(Platform::Windows, None), Some("pwsh".to_string()));
    assert_eq!(
        get_parent_shell(Platform::Windows, Some("/bin/bash".to_string())),
        Some("pwsh".to_string())
    );
}

#[test]
fn the_parent_shell_is_the_one_of_the_environment_elsewhere() {
    assert_eq!(
        get_parent_shell(Platform::Posix, Some("/bin/zsh".to_string())),
        Some("/bin/zsh".to_string())
    );
}

#[test]
fn no_parent_shell_is_known_where_the_environment_names_none() {
    assert_eq!(get_parent_shell(Platform::Posix, None), None);
}

#[test]
fn errors_describe_themselves() {
    assert_eq!(
        VenvError::Spawn("No such file or directory".to_string()).message(),
        "Failed to execute command: No such file or directory"
    );
    assert_eq!(VenvError::CommandFailed.message(), "Command failed");
    assert_eq!(VenvError::CreateFailed.message(), "Error creating virtual environment");
    assert_eq!(VenvError::InstallFailed.message(), "Error installing packages");
    assert_eq!(VenvError::Io("Permission denied".to_string()).message(), "Permission denied");
}

#[test]
fn errors_are_copied_whole() {
    let errors = vec![
        VenvError::Spawn("a".to_string()),
        VenvError::CommandFailed,
        VenvError::CreateFailed,
        VenvError::InstallFailed,
        VenvError::Io("b".to_string()),
    ];
    for error in &errors {
        assert_eq!(&error.duplicate(), error);
    }
}
