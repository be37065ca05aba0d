use space_recorder::pty::{default_shell, select_shell, PtyError, PtySize};

/// The `SHELL` variable of a typical login environment.
fn env_shell() -> Option<String> {
    Some("/bin/bash".to_string())
}

fn default_shell_returns_valid_path() {
    let env = env_shell();
    let shell = default_shell(env.as_deref());
    assert!(shell.starts_with('/'), "Shell path should be absolute: {}", shell);
}

fn select_shell_with_cli_arg() {
    let env = env_shell();
    let shell = select_shell(Some("/bin/fish"), env.as_deref());
    assert_eq!(shell, "/bin/fish");
}

fn select_shell_without_cli_falls_back_to_env() {
    let env = env_shell();
    let shell = select_shell(None, env.as_deref());
    assert!(shell.starts_with('/'), "Shell path should be absolute: {}", shell);
}

#[test]
fn pty_test_default_shell_returns_valid_path() {
    default_shell_returns_valid_path();
}

#[test]
fn shell_test_default_shell_returns_valid_path() {
    default_shell_returns_valid_path();
}

#[test]
fn pty_test_select_shell_with_cli_arg() {
    select_shell_with_cli_arg();
}

#[test]
fn shell_test_select_shell_with_cli_arg() {
    select_shell_with_cli_arg();
}

#[test]
fn pty_test_select_shell_without_cli_falls_back_to_env() {
    select_shell_without_cli_falls_back_to_env();
}

#[test]
fn shell_test_select_shell_without_cli_falls_back_to_env() {
    select_shell_without_cli_falls_back_to_env();
}

#[test]
fn test_pty_size_default() {
    let size = PtySize::default();
    assert_eq!(size.rows, 24);
    assert_eq!(size.cols, 80);
}

#[test]
fn select_shell_priority() {
    assert_eq!(select_shell(None, None), "/bin/zsh");
    assert_eq!(select_shell(None, Some("/bin/bash")), "/bin/bash");
    assert_eq!(select_shell(Some("/bin/fish"), Some("/bin/bash")), "/bin/fish");
    assert_eq!(default_shell(None), "/bin/zsh");
}

#[test]
fn pty_error_messages() {
    assert_eq!(PtyError::SpawnFailed("no such file".to_string()).to_string(), "Failed to spawn shell: no such file");
    assert_eq!(PtyError::IoError("broken pipe".to_string()).to_string(), "PTY I/O error: broken pipe");
}
