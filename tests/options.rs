use lune_std_process::error::ConfigError;
use lune_std_process::options::{command_line, resolve, resolve_spawn_options, SpawnOptions};
use lune_std_process::stdio::{policy_from_name, StdinSetup, StdioOptions, StdioPolicy};

fn strings(items: &[&str]) -> Vec<String> {
    items.iter().map(|s| s.to_string()).collect()
}

#[test]
fn empty_program_is_rejected() {
    let r = resolve(String::new(), strings(&["a"]), SpawnOptions::new(), true);
    assert_eq!(r.unwrap_err(), ConfigError::EmptyProgram);
}

#[test]
fn empty_program_is_reported_before_other_faults() {
    let mut options = SpawnOptions::new();
    options.cwd = Some("/nowhere".to_string());
    options.stdio.stdin_payload = Some(vec![1]);
    let r = resolve(String::new(), Vec::new(), options, false);
    assert_eq!(r.unwrap_err(), ConfigError::EmptyProgram);
}

#[test]
fn payload_without_pipe_is_rejected() {
    let mut options = SpawnOptions::new();
    options.stdio.stdin = StdioPolicy::Inherit;
    options.stdio.stdin_payload = Some(b"data".to_vec());
    let r = resolve("cat".to_string(), Vec::new(), options, true);
    assert_eq!(r.unwrap_err(), ConfigError::PayloadWithoutPipe);
}

#[test]
fn payload_with_null_stdin_is_rejected() {
    let mut options = SpawnOptions::new();
    options.stdio.stdin_payload = Some(Vec::new());
    let r = resolve("cat".to_string(), Vec::new(), options, true);
    assert_eq!(r.unwrap_err(), ConfigError::PayloadWithoutPipe);
}

#[test]
fn missing_cwd_is_rejected() {
    let mut options = SpawnOptions::new();
    options.cwd = Some("/no/such/dir".to_string());
    let r = resolve("ls".to_string(), Vec::new(), options, false);
    assert_eq!(r.unwrap_err(), ConfigError::MissingCwd);
}

#[test]
fn absent_cwd_needs_no_lookup() {
    let r = resolve("ls".to_string(), Vec::new(), SpawnOptions::new(), false);
    assert!(r.is_ok());
}

#[test]
fn plain_command_passes_through() {
    let mut options = SpawnOptions::new();
    options.cwd = Some("/tmp".to_string());
    options.env = vec![("KEY".to_string(), "value".to_string())];
    options.stdio.stdin = StdioPolicy::Piped;
    options.stdio.stdin_payload = Some(b"hello".to_vec());
    options.stdio.stderr = StdioPolicy::Inherit;
    let c = resolve("echo".to_string(), strings(&["a", "b c"]), options, true).unwrap();
    assert_eq!(c.program, "echo");
    assert_eq!(c.args, strings(&["a", "b c"]));
    assert_eq!(c.cwd, Some("/tmp".to_string()));
    assert_eq!(c.env, vec![("KEY".to_string(), "value".to_string())]);
    assert!(matches!(c.stdin, StdinSetup::Piped(Some(ref p)) if p == b"hello"));
    assert_eq!(c.stdout, StdioPolicy::Piped);
    assert_eq!(c.stderr, StdioPolicy::Inherit);
}

#[test]
fn piped_stdin_without_payload() {
    let mut options = SpawnOptions::new();
    options.stdio.stdin = StdioPolicy::Piped;
    let c = resolve("cat".to_string(), Vec::new(), options, true).unwrap();
    assert!(matches!(c.stdin, StdinSetup::Piped(None)));
    assert!(c.stdin.is_piped());
}

#[test]
fn shell_runs_joined_line() {
    let mut options = SpawnOptions::new();
    options.shell = true;
    let c = resolve("echo".to_string(), strings(&["hi", "there"]), options, true).unwrap();
    assert_eq!(c.program, "/bin/sh");
    assert_eq!(c.args, strings(&["-c", "echo hi there"]));
    assert!(matches!(c.stdin, StdinSetup::Null));
    assert!(!c.stdin.is_piped());
}

#[test]
fn command_line_without_args_is_program() {
    assert_eq!(command_line("ls", &Vec::new()), "ls");
    assert_eq!(command_line("ls", &strings(&["-l"])), "ls -l");
    assert_eq!(command_line("a", &strings(&["", "b"])), "a  b");
}

#[test]
fn default_options() {
    let o = SpawnOptions::new();
    assert_eq!(o.cwd, None);
    assert!(o.env.is_empty());
    assert!(!o.shell);
    let s = StdioOptions::new();
    assert_eq!(s.stdin, StdioPolicy::Null);
    assert_eq!(s.stdin_payload, None);
    assert_eq!(s.stdout, StdioPolicy::Piped);
    assert_eq!(s.stderr, StdioPolicy::Piped);
}

#[test]
fn existing_cwd_is_found() {
    let mut options = SpawnOptions::new();
    options.cwd = Some("/".to_string());
    let c = resolve_spawn_options("ls".to_string(), Vec::new(), options).unwrap();
    assert_eq!(c.cwd, Some("/".to_string()));
}

#[test]
fn nonexistent_cwd_is_reported() {
    let mut options = SpawnOptions::new();
    options.cwd = Some("/definitely/not/a/directory/here".to_string());
    let r = resolve_spawn_options("ls".to_string(), Vec::new(), options);
    assert_eq!(r.unwrap_err(), ConfigError::MissingCwd);
}

#[test]
fn policy_names() {
    assert_eq!(policy_from_name("pipe"), Some(StdioPolicy::Piped));
    assert_eq!(policy_from_name("default"), Some(StdioPolicy::Piped));
    assert_eq!(policy_from_name("inherit"), Some(StdioPolicy::Inherit));
    assert_eq!(policy_from_name("forward"), Some(StdioPolicy::Inherit));
    assert_eq!(policy_from_name("none"), Some(StdioPolicy::Null));
    assert_eq!(policy_from_name("Pipe"), None);
    assert_eq!(policy_from_name(""), None);
}
