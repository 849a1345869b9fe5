use vshell::session::Effect;
use vshell::session::Shell;

fn lines(r: &vshell::session::Reply) -> Vec<String> {
    r.outputs.clone()
}

#[test]
fn new_session_starts_at_the_given_location() {
    let sh = Shell::new("/home/user".to_string());
    assert_eq!(sh.location(), "/home/user");
}

#[test]
fn empty_line_is_a_no_op() {
    let mut sh = Shell::new("/base".to_string());
    let r = sh.execute_command("   ");
    assert!(r.outputs.is_empty());
    assert!(r.effect.is_none());
}

#[test]
fn unknown_command_is_reported_verbatim() {
    let mut sh = Shell::new("/base".to_string());
    let r = sh.execute_command("frobnicate x y");
    assert_eq!(lines(&r), vec!["Unknown command: frobnicate".to_string()]);
    assert!(r.effect.is_none());
}

#[test]
fn help_prints_the_fixed_text() {
    let mut sh = Shell::new("/base".to_string());
    let r = sh.execute_command("help");
    assert_eq!(r.outputs.len(), 5);
    assert_eq!(r.outputs[0], "Available commands:");
    assert!(r.effect.is_none());
}

// --- navigation -----------------------------------------------------------

#[test]
fn backward_beyond_history_stabilizes_silently() {
    let mut sh = Shell::new("/base".to_string());
    for _ in 0..5 {
        let r = sh.execute_command("<-");
        assert!(r.outputs.is_empty());
        assert!(r.effect.is_none());
    }
    assert_eq!(sh.location(), "/base");
}

#[test]
fn forward_beyond_history_stabilizes_silently() {
    let mut sh = Shell::new("/base".to_string());
    for _ in 0..5 {
        let r = sh.execute_command("->");
        assert!(r.outputs.is_empty());
        assert!(r.effect.is_none());
    }
    assert_eq!(sh.location(), "/base");
}

// --- custom-command registry ----------------------------------------------

#[test]
fn create_then_list_shows_one_numbered_line() {
    let mut sh = Shell::new("/base".to_string());
    let r = sh.list_custom_commands();
    assert_eq!(lines(&r), vec!["No custom commands defined.".to_string()]);
    let r = sh.create_custom_command(Some("build"), Some("echo hi"), Some("builds the thing"));
    assert_eq!(lines(&r), vec!["Custom command 'build' created.".to_string()]);
    let r = sh.list_custom_commands();
    assert_eq!(lines(&r), vec!["1: build - builds the thing (Definition: echo hi)".to_string()]);
}

#[test]
fn create_through_dispatch() {
    let mut sh = Shell::new("/base".to_string());
    let r = sh.execute_command("cc create deploy ship done");
    assert_eq!(lines(&r), vec!["Custom command 'deploy' created.".to_string()]);
    let r = sh.execute_command("cc list");
    assert_eq!(lines(&r), vec!["1: deploy - done (Definition: ship)".to_string()]);
}

#[test]
fn create_with_missing_fields_is_usage() {
    let mut sh = Shell::new("/base".to_string());
    let r = sh.execute_command("cc create onlyname");
    assert_eq!(
        lines(&r),
        vec!["Usage: cc create <command_name> <command_definition> <command_description>"
            .to_string()],
    );
    let r = sh.execute_command("cc list");
    assert_eq!(lines(&r), vec!["No custom commands defined.".to_string()]);
}

#[test]
fn cc_without_action_is_usage() {
    let mut sh = Shell::new("/base".to_string());
    let r = sh.execute_command("cc");
    assert_eq!(lines(&r), vec!["Usage: cc <create/list/delete/refactor>".to_string()]);
}

#[test]
fn cc_unknown_action_is_reported_verbatim() {
    let mut sh = Shell::new("/base".to_string());
    let r = sh.execute_command("cc explode now");
    assert_eq!(lines(&r), vec!["Unknown custom command action: explode".to_string()]);
}

#[test]
fn delete_renumbers_contiguously() {
    let mut sh = Shell::new("/base".to_string());
    sh.execute_command("cc create first f1 d1");
    sh.execute_command("cc create second f2 d2");
    sh.execute_command("cc create third f3 d3");
    let r = sh.execute_command("cc delete 2");
    assert_eq!(lines(&r), vec!["Custom command 'second' deleted.".to_string()]);
    let r = sh.execute_command("cc list");
    assert_eq!(
        lines(&r),
        vec![
            "1: first - d1 (Definition: f1)".to_string(),
            "2: third - d3 (Definition: f3)".to_string(),
        ],
    );
}

#[test]
fn delete_rejections_are_distinct_and_harmless() {
    let mut sh = Shell::new("/base".to_string());
    sh.execute_command("cc create keep def desc");
    let r = sh.execute_command("cc delete 0");
    assert_eq!(lines(&r), vec!["Command number out of range.".to_string()]);
    let r = sh.execute_command("cc delete 2");
    assert_eq!(lines(&r), vec!["Command number out of range.".to_string()]);
    let r = sh.execute_command("cc delete abc");
    assert_eq!(lines(&r), vec!["Invalid command number.".to_string()]);
    let r = sh.execute_command("cc delete");
    assert_eq!(lines(&r), vec!["Usage: cc delete <command_number>".to_string()]);
    let r = sh.execute_command("cc list");
    assert_eq!(lines(&r), vec!["1: keep - desc (Definition: def)".to_string()]);
}

#[test]
fn listing_numbers_reach_two_digits() {
    let mut sh = Shell::new("/base".to_string());
    for i in 0..12 {
        let name = format!("c{}", i);
        sh.create_custom_command(Some(&name), Some("d"), Some("x"));
    }
    let r = sh.list_custom_commands();
    assert_eq!(r.outputs.len(), 12);
    assert!(r.outputs[9].starts_with("10: "));
    assert!(r.outputs[11].starts_with("12: "));
}

#[test]
fn refactor_definition_only_keeps_description() {
    let mut sh = Shell::new("/base".to_string());
    sh.execute_command("cc create build make it");
    let r = sh.execute_command("cc refactor 1 newdef");
    assert_eq!(lines(&r), vec!["Custom command 'build' updated.".to_string()]);
    let r = sh.execute_command("cc list");
    assert_eq!(lines(&r), vec!["1: build - it (Definition: newdef)".to_string()]);
}

#[test]
fn refactor_description_only_keeps_definition() {
    let mut sh = Shell::new("/base".to_string());
    sh.execute_command("cc create build make it");
    let r = sh.refactor_custom_command(Some("1"), None, Some("newdesc"));
    assert_eq!(lines(&r), vec!["Custom command 'build' updated.".to_string()]);
    let r = sh.list_custom_commands();
    assert_eq!(lines(&r), vec!["1: build - newdesc (Definition: make)".to_string()]);
}

#[test]
fn refactor_with_neither_field_reports_success_and_changes_nothing() {
    let mut sh = Shell::new("/base".to_string());
    sh.execute_command("cc create build make it");
    let r = sh.refactor_custom_command(Some("1"), None, None);
    assert_eq!(lines(&r), vec!["Custom command 'build' updated.".to_string()]);
    let r = sh.list_custom_commands();
    assert_eq!(lines(&r), vec!["1: build - it (Definition: make)".to_string()]);
}

#[test]
fn refactor_rejections() {
    let mut sh = Shell::new("/base".to_string());
    sh.execute_command("cc create build make it");
    let r = sh.execute_command("cc refactor 9 d");
    assert_eq!(lines(&r), vec!["Command number out of range.".to_string()]);
    let r = sh.execute_command("cc refactor abc d");
    assert_eq!(lines(&r), vec!["Invalid command number.".to_string()]);
    let r = sh.execute_command("cc refactor");
    assert_eq!(
        lines(&r),
        vec!["Usage: cc refactor <command_number> <new_definition> <new_description>".to_string()],
    );
}

// --- filesystem and process requests --------------------------------------

#[test]
fn dir_requests_a_listing_of_the_location() {
    let mut sh = Shell::new("/base".to_string());
    let r = sh.execute_command("dir");
    assert!(r.outputs.is_empty());
    match r.effect {
        Some(Effect::ListDir { path }) => assert_eq!(path, "/base"),
        _ => panic!("expected a ListDir request"),
    }
}

#[test]
fn mkdir_and_rmdir_address_the_same_path() {
    let mut sh = Shell::new("/base".to_string());
    let made = match sh.execute_command("mkdir sub").effect {
        Some(Effect::MakeDir { path, failure }) => {
            assert_eq!(failure, "Failed to create directory: sub");
            path
        }
        _ => panic!("expected a MakeDir request"),
    };
    let removed = match sh.execute_command("rmdir sub").effect {
        Some(Effect::RemoveDir { path, failure }) => {
            assert_eq!(failure, "Failed to remove directory: sub");
            path
        }
        _ => panic!("expected a RemoveDir request"),
    };
    assert_eq!(made, "/base/sub");
    assert_eq!(made, removed);
}

#[test]
fn mkdir_without_argument_is_usage() {
    let mut sh = Shell::new("/base".to_string());
    let r = sh.execute_command("mkdir");
    assert_eq!(lines(&r), vec!["Usage: mkdir <directory_name>".to_string()]);
    assert!(r.effect.is_none());
}

#[test]
fn rename_requests_both_paths() {
    let mut sh = Shell::new("/base".to_string());
    match sh.execute_command("rename old new").effect {
        Some(Effect::RenamePath { from, to, failure }) => {
            assert_eq!(from, "/base/old");
            assert_eq!(to, "/base/new");
            assert_eq!(failure, "Failed to rename directory.");
        }
        _ => panic!("expected a RenamePath request"),
    }
    let r = sh.execute_command("rename onlyone");
    assert_eq!(lines(&r), vec!["Usage: rename <old_name> <new_name>".to_string()]);
}

#[test]
fn move_and_copy_requests() {
    let mut sh = Shell::new("/base".to_string());
    match sh.execute_command("move a b").effect {
        Some(Effect::MovePath { from, to, failure }) => {
            assert_eq!(from, "/base/a");
            assert_eq!(to, "/base/b");
            assert_eq!(failure, "Failed to move file.");
        }
        _ => panic!("expected a MovePath request"),
    }
    match sh.execute_command("copy a b").effect {
        Some(Effect::CopyPath { from, to, failure }) => {
            assert_eq!(from, "/base/a");
            assert_eq!(to, "/base/b");
            assert_eq!(failure, "Failed to copy file.");
        }
        _ => panic!("expected a CopyPath request"),
    }
    let r = sh.execute_command("move a");
    assert_eq!(lines(&r), vec!["Usage: move <source> <destination>".to_string()]);
    let r = sh.execute_command("copy");
    assert_eq!(lines(&r), vec!["Usage: copy <source> <destination>".to_string()]);
}

#[test]
fn type_requests_a_file_read() {
    let mut sh = Shell::new("/base".to_string());
    match sh.execute_command("type notes.txt").effect {
        Some(Effect::ReadFile { path, failure }) => {
            assert_eq!(path, "/base/notes.txt");
            assert_eq!(failure, "Failed to read file.");
        }
        _ => panic!("expected a ReadFile request"),
    }
    let r = sh.execute_command("type");
    assert_eq!(lines(&r), vec!["Usage: type <file_name>".to_string()]);
}

#[test]
fn run_requests_a_script() {
    let mut sh = Shell::new("/base".to_string());
    match sh.execute_command("run job.sh").effect {
        Some(Effect::RunScript { path, not_found }) => {
            assert_eq!(path, "/base/job.sh");
            assert_eq!(not_found, "Script not found: job.sh");
        }
        _ => panic!("expected a RunScript request"),
    }
    let r = sh.execute_command("run");
    assert_eq!(lines(&r), vec!["Usage: run <script_path>".to_string()]);
}

#[test]
fn clear_and_exit_requests() {
    let mut sh = Shell::new("/base".to_string());
    assert!(matches!(sh.execute_command("clear").effect, Some(Effect::ClearScreen)));
    assert!(matches!(sh.execute_command("exit").effect, Some(Effect::Exit)));
}
