use leap_cli::errors::RewriteError;
use leap_cli::errors::failure_message;
use leap_cli::dispatch::exit_code;
use leap_cli::rewrite::FsAction;
use leap_cli::rewrite::FsEvent;
use leap_cli::rewrite::RewriteOutcome;
use leap_cli::rewrite::Step;
use leap_cli::rewrite::start_rewrite;
use leap_cli::rewrite::rewrite_step;

/// A simulated filesystem: path to content, plus switches that make one
/// kind of action fail, and a log of every rename target the machine asked
/// for.
struct Sim {
    entries: Vec<(String, String)>,
    fail_read: bool,
    fail_rename: bool,
    fail_write: bool,
    fail_remove: bool,
    rename_targets: Vec<String>,
}

impl Sim {
    fn new(entries: Vec<(&str, &str)>) -> Sim {
        Sim {
            entries: entries
                .into_iter()
                .map(|(p, c)| (p.to_string(), c.to_string()))
                .collect(),
            fail_read: false,
            fail_rename: false,
            fail_write: false,
            fail_remove: false,
            rename_targets: Vec::new(),
        }
    }

    fn get(&self, path: &str) -> Option<String> {
        self.entries
            .iter()
            .find(|(p, _)| p == path)
            .map(|(_, c)| c.clone())
    }

    fn contains(&self, path: &str) -> bool {
        self.entries.iter().any(|(p, _)| p == path)
    }

    fn insert(&mut self, path: &str, text: &str) {
        self.remove(path);
        self.entries.push((path.to_string(), text.to_string()));
    }

    fn remove(&mut self, path: &str) {
        self.entries.retain(|(p, _)| p != path);
    }

    /// Runs the whole rewrite of `path` against this filesystem, performing
    /// each action the machine asks for and reporting truthfully what it
    /// did.
    fn drive(&mut self, path: &str, to_stdout: bool) -> RewriteOutcome {
        let mut step = start_rewrite(path.to_string(), to_stdout);
        loop {
            match step {
                Step::Next { state, action } => {
                    let event = match action {
                        FsAction::Canonicalize { path } => FsEvent::Canonicalized {
                            canon: if self.contains(&path) {
                                Some(path)
                            } else {
                                None
                            },
                        },
                        FsAction::ReadFile { path } => FsEvent::ReadDone {
                            text: if self.fail_read { None } else { self.get(&path) },
                        },
                        FsAction::Probe { path } => FsEvent::Probed {
                            found: self.contains(&path),
                        },
                        FsAction::Rename { from, to } => {
                            self.rename_targets.push(to.clone());
                            match self.get(&from) {
                                Some(content) if !self.fail_rename => {
                                    self.remove(&from);
                                    self.insert(&to, &content);
                                    FsEvent::Renamed { ok: true }
                                }
                                _ => FsEvent::Renamed { ok: false },
                            }
                        }
                        FsAction::WriteFile { path, text } => {
                            if self.fail_write {
                                FsEvent::Written { ok: false }
                            } else {
                                self.insert(&path, &text);
                                FsEvent::Written { ok: true }
                            }
                        }
                        FsAction::RemoveFile { path } => {
                            if self.fail_remove {
                                FsEvent::Removed { ok: false }
                            } else {
                                self.remove(&path);
                                FsEvent::Removed { ok: true }
                            }
                        }
                    };
                    step = rewrite_step(state, event);
                }
                Step::Done { outcome } => return outcome,
            }
        }
    }
}

const RAW: &str = ".struct    s1";
const FORMATTED: &str = ".struct s1\n";
const MALFORMED: &str = ".struct";

#[test]
fn success_rewrites_in_place() {
    let mut sim = Sim::new(vec![("/a.leap", RAW)]);
    let outcome = sim.drive("/a.leap", false);
    assert!(matches!(outcome, RewriteOutcome::WrittenInPlace));
    assert_eq!(sim.get("/a.leap").unwrap(), FORMATTED);
    assert_eq!(sim.entries.len(), 1);
}

#[test]
fn success_leaves_no_backup() {
    let mut sim = Sim::new(vec![("/a.leap", RAW)]);
    sim.drive("/a.leap", false);
    assert!(!sim.entries.iter().any(|(p, _)| p.contains("_backup")));
}

#[test]
fn format_failure_leaves_file_unchanged() {
    let mut sim = Sim::new(vec![("/b.leap", MALFORMED)]);
    let outcome = sim.drive("/b.leap", false);
    assert!(matches!(
        outcome,
        RewriteOutcome::Failed { err: RewriteError::FormatError }
    ));
    assert_eq!(sim.get("/b.leap").unwrap(), MALFORMED);
    assert_eq!(sim.entries.len(), 1);
}

#[test]
fn missing_file_is_path_error() {
    let mut sim = Sim::new(vec![]);
    let outcome = sim.drive("/missing.leap", false);
    assert!(matches!(
        outcome,
        RewriteOutcome::Failed { err: RewriteError::PathError }
    ));
    assert_eq!(sim.entries.len(), 0);
}

#[test]
fn unreadable_file_is_read_error() {
    let mut sim = Sim::new(vec![("/a.leap", RAW)]);
    sim.fail_read = true;
    let outcome = sim.drive("/a.leap", false);
    assert!(matches!(
        outcome,
        RewriteOutcome::Failed { err: RewriteError::ReadError }
    ));
    assert_eq!(sim.get("/a.leap").unwrap(), RAW);
}

#[test]
fn stdout_emits_formatter_output_and_leaves_disk() {
    let mut sim = Sim::new(vec![("/a.leap", RAW)]);
    let outcome = sim.drive("/a.leap", true);
    match outcome {
        RewriteOutcome::ToStdout { text } => {
            assert_eq!(text, FORMATTED);
            assert_eq!(text, leap_lang::formatter::format(RAW).unwrap());
            assert_ne!(text, RAW);
        }
        _ => panic!("expected stdout outcome"),
    }
    assert_eq!(sim.get("/a.leap").unwrap(), RAW);
    assert_eq!(sim.entries.len(), 1);
}

#[test]
fn backup_slot_is_smallest_free() {
    let mut sim = Sim::new(vec![
        ("/a.leap", RAW),
        ("/a.leap_backup1", "old1"),
        ("/a.leap_backup2", "old2"),
        ("/a.leap_backup3", "old3"),
    ]);
    let outcome = sim.drive("/a.leap", false);
    assert!(matches!(outcome, RewriteOutcome::WrittenInPlace));
    assert_eq!(sim.rename_targets, vec!["/a.leap_backup4".to_string()]);
    assert!(!sim.contains("/a.leap_backup4"));
    assert_eq!(sim.get("/a.leap_backup2").unwrap(), "old2");
    assert_eq!(sim.get("/a.leap").unwrap(), FORMATTED);
}

#[test]
fn exhausted_backups_fail_and_leave_file() {
    let mut entries: Vec<(String, String)> = vec![("/a.leap".to_string(), RAW.to_string())];
    for n in 1..=99 {
        entries.push((format!("/a.leap_backup{}", n), "old".to_string()));
    }
    let mut sim = Sim::new(vec![]);
    sim.entries = entries;
    let outcome = sim.drive("/a.leap", false);
    assert!(matches!(
        outcome,
        RewriteOutcome::Failed { err: RewriteError::BackupExhausted }
    ));
    assert_eq!(sim.get("/a.leap").unwrap(), RAW);
    assert_eq!(sim.entries.len(), 100);
}

#[test]
fn rename_failure_leaves_file_unchanged() {
    let mut sim = Sim::new(vec![("/a.leap", RAW)]);
    sim.fail_rename = true;
    let outcome = sim.drive("/a.leap", false);
    assert!(matches!(
        outcome,
        RewriteOutcome::Failed { err: RewriteError::BackupRenameError }
    ));
    assert_eq!(sim.get("/a.leap").unwrap(), RAW);
    assert_eq!(sim.entries.len(), 1);
}

#[test]
fn write_failure_keeps_original_in_backup() {
    let mut sim = Sim::new(vec![("/a.leap", RAW)]);
    sim.fail_write = true;
    let outcome = sim.drive("/a.leap", false);
    assert!(matches!(
        outcome,
        RewriteOutcome::Failed { err: RewriteError::WriteError }
    ));
    assert!(!sim.contains("/a.leap"));
    assert_eq!(sim.get("/a.leap_backup1").unwrap(), RAW);
}

#[test]
fn cleanup_failure_still_writes_file() {
    let mut sim = Sim::new(vec![("/a.leap", RAW)]);
    sim.fail_remove = true;
    let outcome = sim.drive("/a.leap", false);
    assert!(matches!(
        outcome,
        RewriteOutcome::Failed { err: RewriteError::CleanupError }
    ));
    assert_eq!(sim.get("/a.leap").unwrap(), FORMATTED);
    assert_eq!(sim.get("/a.leap_backup1").unwrap(), RAW);
}

#[test]
fn formatting_twice_is_idempotent() {
    let mut sim = Sim::new(vec![("/a.leap", RAW)]);
    let first = sim.drive("/a.leap", false);
    assert!(matches!(first, RewriteOutcome::WrittenInPlace));
    let after_first = sim.get("/a.leap").unwrap();
    let second = sim.drive("/a.leap", false);
    assert!(matches!(second, RewriteOutcome::WrittenInPlace));
    let after_second = sim.get("/a.leap").unwrap();
    assert_eq!(after_first, after_second);
    assert_eq!(after_second, FORMATTED);
    assert_eq!(sim.entries.len(), 1);
}

#[test]
fn mixed_batch_rewrites_good_file_and_reports_bad_one() {
    let mut sim = Sim::new(vec![("/a.leap", RAW), ("/b.leap", MALFORMED)]);
    let mut failures: Vec<String> = Vec::new();
    for path in ["/a.leap", "/b.leap"] {
        match sim.drive(path, false) {
            RewriteOutcome::Failed { err } => failures.push(failure_message(err, path)),
            _ => {}
        }
    }
    assert_eq!(sim.get("/a.leap").unwrap(), FORMATTED);
    assert_eq!(sim.get("/b.leap").unwrap(), MALFORMED);
    assert_eq!(failures, vec!["Error formatting: `/b.leap`".to_string()]);
    assert_eq!(exit_code(&failures), 1);
}

#[test]
fn clean_batch_exits_zero() {
    let mut sim = Sim::new(vec![("/a.leap", RAW)]);
    let mut failures: Vec<String> = Vec::new();
    match sim.drive("/a.leap", false) {
        RewriteOutcome::Failed { err } => failures.push(failure_message(err, "/a.leap")),
        _ => {}
    }
    assert_eq!(exit_code(&failures), 0);
}
