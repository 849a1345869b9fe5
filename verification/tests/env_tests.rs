use vshell::session::Effect;
use vshell::session::Shell;

#[test]
fn setenv_binds_and_reports() {
    let mut sh = Shell::new("/base".to_string());
    let r = sh.execute_command("setenv A 1");
    assert_eq!(r.outputs, vec!["Environment variable set: A=1".to_string()]);
    assert!(r.effect.is_none());
    assert_eq!(sh.get_env("A"), Some("1".to_string()));
}

#[test]
fn setenv_last_write_wins() {
    let mut sh = Shell::new("/base".to_string());
    sh.execute_command("setenv A 1");
    sh.execute_command("setenv A 2");
    assert_eq!(sh.get_env("A"), Some("2".to_string()));
}

#[test]
fn setenv_missing_value_is_usage() {
    let mut sh = Shell::new("/base".to_string());
    let r = sh.execute_command("setenv A");
    assert_eq!(r.outputs, vec!["Usage: setenv <key> <value>".to_string()]);
    assert_eq!(sh.get_env("A"), None);
}

#[test]
fn source_requests_a_read_at_the_joined_path() {
    let mut sh = Shell::new("/base".to_string());
    let r = sh.execute_command("source env.txt");
    assert!(r.outputs.is_empty());
    match r.effect {
        Some(Effect::SourceEnv { path }) => assert_eq!(path, "/base/env.txt"),
        _ => panic!("expected a SourceEnv request"),
    }
}

#[test]
fn source_missing_argument_is_usage() {
    let mut sh = Shell::new("/base".to_string());
    let r = sh.execute_command("source");
    assert_eq!(r.outputs, vec!["Usage: source <env_file_path>".to_string()]);
    assert!(r.effect.is_none());
}

#[test]
fn sourcing_applies_good_lines_and_skips_bad_ones() {
    let mut sh = Shell::new("/base".to_string());
    let r = sh.apply_env_result(Some("A=1\nBADLINE\nB = 2"));
    assert_eq!(r.outputs, vec!["Environment variables sourced.".to_string()]);
    assert_eq!(sh.get_env("A"), Some("1".to_string()));
    assert_eq!(sh.get_env("B"), Some("2".to_string()));
    assert_eq!(sh.get_env("BADLINE"), None);
}

#[test]
fn sourcing_handles_crlf_and_overwrites() {
    let mut sh = Shell::new("/base".to_string());
    sh.execute_command("setenv X old");
    sh.apply_env_result(Some("X=1\r\nY = spaced value \r\n"));
    assert_eq!(sh.get_env("X"), Some("1".to_string()));
    assert_eq!(sh.get_env("Y"), Some("spaced value".to_string()));
}

#[test]
fn failed_read_reports_and_leaves_overlay_untouched() {
    let mut sh = Shell::new("/base".to_string());
    sh.execute_command("setenv A 1");
    let r = sh.apply_env_result(None);
    assert_eq!(r.outputs, vec!["Failed to read env file.".to_string()]);
    assert_eq!(sh.get_env("A"), Some("1".to_string()));
}
