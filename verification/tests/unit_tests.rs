use leap_cli::aggregate::verify_report;
use leap_cli::backup::backup_candidate_path;
use leap_cli::backup::path_has_file_name;
use leap_cli::dispatch::exit_code;
use leap_cli::errors::RewriteError;
use leap_cli::errors::failure_message;
use leap_cli::formatter::catalogue_text;
use leap_cli::rewrite::FsEvent;
use leap_cli::rewrite::RewriteOutcome;
use leap_cli::rewrite::RewriteState;
use leap_cli::rewrite::Step;
use leap_cli::rewrite::rewrite_step;

#[test]
fn backup_names_follow_numbered_suffix_scheme() {
    assert_eq!(backup_candidate_path("/d/a.leap", 1), "/d/a.leap_backup1");
    assert_eq!(backup_candidate_path("/d/a.leap", 9), "/d/a.leap_backup9");
    assert_eq!(backup_candidate_path("/d/a.leap", 10), "/d/a.leap_backup10");
    assert_eq!(backup_candidate_path("/d/a.leap", 42), "/d/a.leap_backup42");
    assert_eq!(backup_candidate_path("/d/a.leap", 99), "/d/a.leap_backup99");
}

#[test]
fn file_name_detection() {
    assert!(path_has_file_name("/d/a.leap"));
    assert!(path_has_file_name("a"));
    assert!(!path_has_file_name("/"));
    assert!(!path_has_file_name("/d/"));
    assert!(!path_has_file_name(""));
}

#[test]
fn trailing_slash_path_is_path_error() {
    let state = RewriteState::Reading {
        canon: "/d/".to_string(),
        to_stdout: false,
    };
    let event = FsEvent::ReadDone {
        text: Some(".struct s1\n".to_string()),
    };
    match rewrite_step(state, event) {
        Step::Done {
            outcome: RewriteOutcome::Failed { err },
        } => assert_eq!(err, RewriteError::PathError),
        _ => panic!("expected a path error"),
    }
}

#[test]
fn failure_messages_name_the_file() {
    assert_eq!(
        failure_message(RewriteError::PathError, "a.leap"),
        "Path error: `a.leap`"
    );
    assert_eq!(
        failure_message(RewriteError::ReadError, "a.leap"),
        "Can't read: `a.leap`"
    );
    assert_eq!(
        failure_message(RewriteError::FormatError, "a.leap"),
        "Error formatting: `a.leap`"
    );
    assert_eq!(
        failure_message(RewriteError::BackupExhausted, "a.leap"),
        "Can't find path for backup"
    );
    assert_eq!(
        failure_message(RewriteError::BackupRenameError, "a.leap"),
        "Failed to backup: `a.leap`"
    );
    assert_eq!(
        failure_message(RewriteError::WriteError, "a.leap"),
        "Failed to write: `a.leap`"
    );
    assert_eq!(
        failure_message(RewriteError::CleanupError, "a.leap"),
        "Failed delete backup: `a.leap`"
    );
}

#[test]
fn exit_code_is_zero_only_without_failures() {
    assert_eq!(exit_code(&Vec::new()), 0);
    assert_eq!(exit_code(&vec!["one failure".to_string()]), 1);
    assert_eq!(
        exit_code(&vec!["one".to_string(), "two".to_string()]),
        1
    );
}

#[test]
fn verify_success_is_silent() {
    assert_eq!(verify_report(None), Ok(()));
}

#[test]
fn verify_failure_propagates_the_report() {
    let report = "a.leap:3:7\n     |\n   3 |bad line\n     |       ^---\n\nexpected type".to_string();
    assert_eq!(verify_report(Some(report.clone())), Err(report));
}

#[test]
fn catalogue_is_the_external_standard_types_text() {
    assert_eq!(catalogue_text(), leap_lang::stdtypes::STD_TYPES);
    assert!(!catalogue_text().is_empty());
}
