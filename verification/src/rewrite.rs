//! The safe rewrite executor: a step machine for the backup-protected
//! in-place rewrite of one spec file.
//!
//! The machine never touches the filesystem itself. Each step either asks
//! the driver to perform one filesystem action ([`FsAction`]) or ends with
//! an outcome; the driver reports what each action did as an [`FsEvent`]
//! and the machine decides the next step. The protocol, in order: read the
//! file, reformat its text, and then — unless the text goes to standard
//! output — probe for the first free backup slot, rename the original to
//! the backup path, write the formatted text to the original path, and
//! remove the backup. The rename is the single irrevocable step: from that
//! point until the write succeeds, the pre-format content lives under the
//! backup path and nowhere else.
//!
//! The module also states and proves what the protocol guarantees over a
//! model of the filesystem (a map from path to content): a failed rewrite
//! before the rename leaves the filesystem exactly as it was; a successful
//! rewrite leaves exactly the formatted text under the original path and no
//! backup behind; the backup slot chosen is always the smallest free one;
//! and a failed write keeps the original content recoverable at the backup
//! path.

use crate::backup::MAX_SLOT;
use crate::backup::MIN_SLOT;
use crate::backup::backup_candidate;
use crate::backup::backup_candidate_path;
use crate::backup::has_file_name;
use crate::backup::lemma_candidate_injective;
use crate::backup::lemma_candidate_ne_path;
use crate::backup::path_has_file_name;
use crate::errors::RewriteError;
use crate::formatter::format_text;
use crate::formatter::formats_to;
use crate::formatter::leap_format;
use vstd::prelude::*;

verus! {

/// A model of the relevant part of the filesystem: each existing entry's
/// path mapped to its text content.
pub type FsModel = Map<Seq<char>, Seq<char>>;

/// One filesystem action the machine asks the driver to perform.
pub enum FsAction {
    /// Resolve `path` to an absolute, canonical path.
    Canonicalize { path: String },
    /// Read the full text content of the file at `path`.
    ReadFile { path: String },
    /// Report whether any filesystem entry exists at `path`.
    Probe { path: String },
    /// Atomically rename the entry at `from` to `to`.
    Rename { from: String, to: String },
    /// Write `text` as the full content of the file at `path`.
    WriteFile { path: String, text: String },
    /// Remove the file at `path`.
    RemoveFile { path: String },
}

/// What the driver reports back for the one action the machine asked for.
pub enum FsEvent {
    /// The canonical path, or `None` when the path cannot be resolved.
    Canonicalized { canon: Option<String> },
    /// The file's text, or `None` when it cannot be read.
    ReadDone { text: Option<String> },
    /// Whether an entry exists at the probed path.
    Probed { found: bool },
    /// Whether the rename was performed.
    Renamed { ok: bool },
    /// Whether the write was performed.
    Written { ok: bool },
    /// Whether the removal was performed.
    Removed { ok: bool },
}

/// Where the machine stands between two filesystem actions.
pub enum RewriteState {
    /// Waiting for the user's path to be canonicalized.
    Canonicalizing { path: String, to_stdout: bool },
    /// Waiting for the file's content to be read.
    Reading { canon: String, to_stdout: bool },
    /// Waiting to hear whether backup candidate `n` exists.
    Probing { canon: String, formatted: String, n: u64 },
    /// Waiting for the original to be renamed to backup candidate `n`.
    Renaming { canon: String, formatted: String, n: u64 },
    /// Waiting for the formatted text to be written to the original path.
    Writing { canon: String, formatted: String, n: u64 },
    /// Waiting for backup candidate `n` to be removed.
    Removing { canon: String, formatted: String, n: u64 },
}

/// How the rewrite of one file ended.
pub enum RewriteOutcome {
    /// The formatted text goes to standard output; the filesystem was not
    /// touched.
    ToStdout { text: String },
    /// The formatted text is durably written under the original path and
    /// the backup is removed.
    WrittenInPlace,
    /// The rewrite failed; `err` says at which step.
    Failed { err: RewriteError },
}

/// One step's result: the next state together with the action the driver
/// must perform, or the outcome of the whole rewrite.
pub enum Step {
    Next { state: RewriteState, action: FsAction },
    Done { outcome: RewriteOutcome },
}

/// The view of a [`RewriteState`]: the same shape over sequences.
pub enum StateV {
    Canonicalizing { path: Seq<char>, to_stdout: bool },
    Reading { canon: Seq<char>, to_stdout: bool },
    Probing { canon: Seq<char>, formatted: Seq<char>, n: u64 },
    Renaming { canon: Seq<char>, formatted: Seq<char>, n: u64 },
    Writing { canon: Seq<char>, formatted: Seq<char>, n: u64 },
    Removing { canon: Seq<char>, formatted: Seq<char>, n: u64 },
}

/// The view of an [`FsAction`].
pub enum ActionV {
    Canonicalize { path: Seq<char> },
    ReadFile { path: Seq<char> },
    Probe { path: Seq<char> },
    Rename { from: Seq<char>, to: Seq<char> },
    WriteFile { path: Seq<char>, text: Seq<char> },
    RemoveFile { path: Seq<char> },
}

/// The view of an [`FsEvent`].
pub enum EventV {
    Canonicalized { canon: Option<Seq<char>> },
    ReadDone { text: Option<Seq<char>> },
    Probed { found: bool },
    Renamed { ok: bool },
    Written { ok: bool },
    Removed { ok: bool },
}

/// The view of a [`RewriteOutcome`].
pub enum OutcomeV {
    ToStdout { text: Seq<char> },
    WrittenInPlace,
    Failed { err: RewriteError },
}

/// The view of a [`Step`].
pub enum StepV {
    Next { state: StateV, action: ActionV },
    Done { outcome: OutcomeV },
}

impl View for RewriteState {
    type V = StateV;

    open spec fn view(&self) -> StateV {
        match self {
            RewriteState::Canonicalizing { path, to_stdout } => (StateV::Canonicalizing {
                path: path@,
                to_stdout: *to_stdout,
            }),
            RewriteState::Reading { canon, to_stdout } => (StateV::Reading {
                canon: canon@,
                to_stdout: *to_stdout,
            }),
            RewriteState::Probing { canon, formatted, n } => (StateV::Probing {
                canon: canon@,
                formatted: formatted@,
                n: *n,
            }),
            RewriteState::Renaming { canon, formatted, n } => (StateV::Renaming {
                canon: canon@,
                formatted: formatted@,
                n: *n,
            }),
            RewriteState::Writing { canon, formatted, n } => (StateV::Writing {
                canon: canon@,
                formatted: formatted@,
                n: *n,
            }),
            RewriteState::Removing { canon, formatted, n } => (StateV::Removing {
                canon: canon@,
                formatted: formatted@,
                n: *n,
            }),
        }
    }
}

impl View for FsAction {
    type V = ActionV;

    open spec fn view(&self) -> ActionV {
        match self {
            FsAction::Canonicalize { path } => ActionV::Canonicalize { path: path@ },
            FsAction::ReadFile { path } => ActionV::ReadFile { path: path@ },
            FsAction::Probe { path } => ActionV::Probe { path: path@ },
            FsAction::Rename { from, to } => ActionV::Rename { from: from@, to: to@ },
            FsAction::WriteFile { path, text } => (ActionV::WriteFile {
                path: path@,
                text: text@,
            }),
            FsAction::RemoveFile { path } => ActionV::RemoveFile { path: path@ },
        }
    }
}

impl View for FsEvent {
    type V = EventV;

    open spec fn view(&self) -> EventV {
        match self {
            FsEvent::Canonicalized { canon } => (EventV::Canonicalized {
                canon: match canon {
                    Some(c) => Some(c@),
                    None => None,
                },
            }),
            FsEvent::ReadDone { text } => (EventV::ReadDone {
                text: match text {
                    Some(t) => Some(t@),
                    None => None,
                },
            }),
            FsEvent::Probed { found } => EventV::Probed { found: *found },
            FsEvent::Renamed { ok } => EventV::Renamed { ok: *ok },
            FsEvent::Written { ok } => EventV::Written { ok: *ok },
            FsEvent::Removed { ok } => EventV::Removed { ok: *ok },
        }
    }
}

impl View for RewriteOutcome {
    type V = OutcomeV;

    open spec fn view(&self) -> OutcomeV {
        match self {
            RewriteOutcome::ToStdout { text } => OutcomeV::ToStdout { text: text@ },
            RewriteOutcome::WrittenInPlace => OutcomeV::WrittenInPlace,
            RewriteOutcome::Failed { err } => OutcomeV::Failed { err: *err },
        }
    }
}

impl View for Step {
    type V = StepV;

    open spec fn view(&self) -> StepV {
        match self {
            Step::Next { state, action } => StepV::Next { state: state@, action: action@ },
            Step::Done { outcome } => StepV::Done { outcome: outcome@ },
        }
    }
}

/// A well-formed machine state: any slot number it carries is one of the
/// numbered backup slots. Every state the machine hands out is well-formed.
pub open spec fn state_wf(s: StateV) -> bool {
    match s {
        StateV::Canonicalizing { .. } => true,
        StateV::Reading { .. } => true,
        StateV::Probing { n, .. } => MIN_SLOT <= n <= MAX_SLOT,
        StateV::Renaming { n, .. } => MIN_SLOT <= n <= MAX_SLOT,
        StateV::Writing { n, .. } => MIN_SLOT <= n <= MAX_SLOT,
        StateV::Removing { n, .. } => MIN_SLOT <= n <= MAX_SLOT,
    }
}

/// The event shape the machine awaits in state `s`: each state expects the
/// report of exactly the action it asked for.
pub open spec fn expects(s: StateV, e: EventV) -> bool {
    match s {
        StateV::Canonicalizing { .. } => e is Canonicalized,
        StateV::Reading { .. } => e is ReadDone,
        StateV::Probing { .. } => e is Probed,
        StateV::Renaming { .. } => e is Renamed,
        StateV::Writing { .. } => e is Written,
        StateV::Removing { .. } => e is Removed,
    }
}

/// The machine's transition relation, as one total function over views.
pub open spec fn step_spec(s: StateV, e: EventV) -> StepV
    recommends
        expects(s, e),
{
    match (s, e) {
        (StateV::Canonicalizing { path, to_stdout }, EventV::Canonicalized { canon }) => (match canon {
            None => (StepV::Done {
                outcome: OutcomeV::Failed { err: RewriteError::PathError },
            }),
            Some(c) => (StepV::Next {
                state: StateV::Reading { canon: c, to_stdout },
                action: ActionV::ReadFile { path: c },
            }),
        }),
        (StateV::Reading { canon, to_stdout }, EventV::ReadDone { text }) => (match text {
            None => (StepV::Done {
                outcome: OutcomeV::Failed { err: RewriteError::ReadError },
            }),
            Some(t) => (match leap_format(t) {
                None => (StepV::Done {
                    outcome: OutcomeV::Failed { err: RewriteError::FormatError },
                }),
                Some(f) => (if to_stdout {
                    StepV::Done { outcome: OutcomeV::ToStdout { text: f } }
                } else if !has_file_name(canon) {
                    StepV::Done { outcome: OutcomeV::Failed { err: RewriteError::PathError } }
                } else {
                    StepV::Next {
                        state: StateV::Probing { canon, formatted: f, n: MIN_SLOT },
                        action: ActionV::Probe { path: backup_candidate(canon, MIN_SLOT as int) },
                    }
                }),
            }),
        }),
        (StateV::Probing { canon, formatted, n }, EventV::Probed { found }) => (if !found {
            StepV::Next {
                state: StateV::Renaming { canon, formatted, n },
                action: ActionV::Rename { from: canon, to: backup_candidate(canon, n as int) },
            }
        } else if n < MAX_SLOT {
            StepV::Next {
                state: StateV::Probing { canon, formatted, n: (n + 1) as u64 },
                action: ActionV::Probe { path: backup_candidate(canon, n as int + 1) },
            }
        } else {
            StepV::Done { outcome: OutcomeV::Failed { err: RewriteError::BackupExhausted } }
        }),
        (StateV::Renaming { canon, formatted, n }, EventV::Renamed { ok }) => (if ok {
            StepV::Next {
                state: StateV::Writing { canon, formatted, n },
                action: ActionV::WriteFile { path: canon, text: formatted },
            }
        } else {
            StepV::Done { outcome: OutcomeV::Failed { err: RewriteError::BackupRenameError } }
        }),
        (StateV::Writing { canon, formatted, n }, EventV::Written { ok }) => (if ok {
            StepV::Next {
                state: StateV::Removing { canon, formatted, n },
                action: ActionV::RemoveFile { path: backup_candidate(canon, n as int) },
            }
        } else {
            StepV::Done { outcome: OutcomeV::Failed { err: RewriteError::WriteError } }
        }),
        (StateV::Removing { canon, formatted, n }, EventV::Removed { ok }) => (if ok {
            StepV::Done { outcome: OutcomeV::WrittenInPlace }
        } else {
            StepV::Done { outcome: OutcomeV::Failed { err: RewriteError::CleanupError } }
        }),
        _ => StepV::Done { outcome: OutcomeV::Failed { err: RewriteError::PathError } },
    }
}

/// Starts the rewrite of the file the user named `path`: the first action
/// is to canonicalize that path.
pub fn start_rewrite(path: String, to_stdout: bool) -> (r: Step)
    ensures
        (r@ == StepV::Next {
            state: StateV::Canonicalizing { path: path@, to_stdout },
            action: ActionV::Canonicalize { path: path@ },
        }),
{
    let action_path = path.clone();
    Step::Next {
        state: RewriteState::Canonicalizing { path, to_stdout },
        action: FsAction::Canonicalize { path: action_path },
    }
}

/// Performs one step of the rewrite protocol: reacts to the driver's
/// report of the last action with the next action, or with the outcome.
pub fn rewrite_step(state: RewriteState, event: FsEvent) -> (r: Step)
    requires
        state_wf(state@),
        expects(state@, event@),
    ensures
        r@ == step_spec(state@, event@),
        (match r@ {
            StepV::Next { state: s2, action: _ } => state_wf(s2),
            StepV::Done { .. } => true,
        }),
{
    match (state, event) {
        (RewriteState::Canonicalizing { path: _, to_stdout }, FsEvent::Canonicalized { canon }) => {
            match canon {
                None => (Step::Done {
                    outcome: RewriteOutcome::Failed { err: RewriteError::PathError },
                }),
                Some(c) => {
                    let action_path = c.clone();
                    Step::Next {
                        state: RewriteState::Reading { canon: c, to_stdout },
                        action: FsAction::ReadFile { path: action_path },
                    }
                },
            }
        },
        (RewriteState::Reading { canon, to_stdout }, FsEvent::ReadDone { text }) => {
            match text {
                None => (Step::Done {
                    outcome: RewriteOutcome::Failed { err: RewriteError::ReadError },
                }),
                Some(t) => {
                    match format_text(t.as_str()) {
                        None => (Step::Done {
                            outcome: RewriteOutcome::Failed { err: RewriteError::FormatError },
                        }),
                        Some(f) => {
                            if to_stdout {
                                Step::Done { outcome: RewriteOutcome::ToStdout { text: f } }
                            } else if !path_has_file_name(canon.as_str()) {
                                Step::Done {
                                    outcome: RewriteOutcome::Failed { err: RewriteError::PathError },
                                }
                            } else {
                                let candidate = backup_candidate_path(canon.as_str(), MIN_SLOT);
                                Step::Next {
                                    state: RewriteState::Probing {
                                        canon,
                                        formatted: f,
                                        n: MIN_SLOT,
                                    },
                                    action: FsAction::Probe { path: candidate },
                                }
                            }
                        },
                    }
                },
            }
        },
        (RewriteState::Probing { canon, formatted, n }, FsEvent::Probed { found }) => {
            if !found {
                let to = backup_candidate_path(canon.as_str(), n);
                let from = canon.clone();
                Step::Next {
                    state: RewriteState::Renaming { canon, formatted, n },
                    action: FsAction::Rename { from, to },
                }
            } else if n < MAX_SLOT {
                let candidate = backup_candidate_path(canon.as_str(), n + 1);
                Step::Next {
                    state: RewriteState::Probing { canon, formatted, n: n + 1 },
                    action: FsAction::Probe { path: candidate },
                }
            } else {
                Step::Done {
                    outcome: RewriteOutcome::Failed { err: RewriteError::BackupExhausted },
                }
            }
        },
        (RewriteState::Renaming { canon, formatted, n }, FsEvent::Renamed { ok }) => {
            if ok {
                let path = canon.clone();
                let text = formatted.clone();
                Step::Next {
                    state: RewriteState::Writing { canon, formatted, n },
                    action: FsAction::WriteFile { path, text },
                }
            } else {
                Step::Done {
                    outcome: RewriteOutcome::Failed { err: RewriteError::BackupRenameError },
                }
            }
        },
        (RewriteState::Writing { canon, formatted, n }, FsEvent::Written { ok }) => {
            if ok {
                let candidate = backup_candidate_path(canon.as_str(), n);
                Step::Next {
                    state: RewriteState::Removing { canon, formatted, n },
                    action: FsAction::RemoveFile { path: candidate },
                }
            } else {
                Step::Done { outcome: RewriteOutcome::Failed { err: RewriteError::WriteError } }
            }
        },
        (RewriteState::Removing { canon: _, formatted: _, n: _ }, FsEvent::Removed { ok }) => {
            if ok {
                Step::Done { outcome: RewriteOutcome::WrittenInPlace }
            } else {
                Step::Done { outcome: RewriteOutcome::Failed { err: RewriteError::CleanupError } }
            }
        },
        _ => vstd::pervasive::unreached(),
    }
}

/// The effect on the modeled filesystem of the one action performed in
/// state `s`, given the driver's report `e`. Only a successful rename,
/// write or removal changes the filesystem.
pub open spec fn fs_after(s: StateV, e: EventV, fs: FsModel) -> FsModel {
    match (s, e) {
        (StateV::Renaming { canon, formatted: _, n }, EventV::Renamed { ok }) => (if ok {
            fs.remove(canon).insert(backup_candidate(canon, n as int), fs[canon])
        } else {
            fs
        }),
        (StateV::Writing { canon, formatted, n: _ }, EventV::Written { ok }) => (if ok {
            fs.insert(canon, formatted)
        } else {
            fs
        }),
        (StateV::Removing { canon, formatted: _, n }, EventV::Removed { ok }) => (if ok {
            fs.remove(backup_candidate(canon, n as int))
        } else {
            fs
        }),
        _ => fs,
    }
}

/// The driver's report is truthful about the modeled filesystem `fs`: a
/// read that returns text returns the file's content, a probe reports
/// exactly whether the candidate exists, and a rename only succeeds on an
/// existing file. Failure reports carry no claim: any action may fail.
pub open spec fn event_ok(s: StateV, e: EventV, fs: FsModel) -> bool {
    &&& expects(s, e)
    &&& match (s, e) {
        (StateV::Reading { canon, to_stdout: _ }, EventV::ReadDone { text }) => (match text {
            Some(t) => fs.contains_key(canon) && fs[canon] == t,
            None => true,
        }),
        (StateV::Probing { canon, formatted: _, n }, EventV::Probed { found }) => (found
            == fs.contains_key(backup_candidate(canon, n as int))),
        (StateV::Renaming { canon, formatted: _, n: _ }, EventV::Renamed { ok }) => (ok
            ==> fs.contains_key(canon)),
        _ => true,
    }
}

/// Where a whole run of the machine stands: still running in some state,
/// or done with an outcome; in both cases with the modeled filesystem.
pub enum RunV {
    Running { state: StateV, fs: FsModel },
    Done { outcome: OutcomeV, fs: FsModel },
}

/// Runs the machine from state `s` over the reported events, threading the
/// filesystem model through each action's effect.
pub open spec fn run_from(s: StateV, events: Seq<EventV>, fs: FsModel) -> RunV
    decreases events.len(),
{
    if events.len() == 0 {
        RunV::Running { state: s, fs }
    } else {
        let e = events[0];
        let fs2 = fs_after(s, e, fs);
        match step_spec(s, e) {
            StepV::Next { state, action: _ } => run_from(state, events.skip(1), fs2),
            StepV::Done { outcome } => RunV::Done { outcome, fs: fs2 },
        }
    }
}

/// Every reported event is truthful about the filesystem model at its
/// step, and no event follows a finished run.
pub open spec fn events_ok(s: StateV, events: Seq<EventV>, fs: FsModel) -> bool
    decreases events.len(),
{
    if events.len() == 0 {
        true
    } else {
        let e = events[0];
        &&& event_ok(s, e, fs)
        &&& match step_spec(s, e) {
            StepV::Next { state, action: _ } => events_ok(state, events.skip(1), fs_after(s, e, fs)),
            StepV::Done { outcome: _ } => events.len() == 1,
        }
    }
}

/// Backup candidates strictly below slot `n` all exist in `fs0`.
pub open spec fn taken_below(canon: Seq<char>, n: int, fs0: FsModel) -> bool {
    forall|k: int|
        MIN_SLOT <= k < n ==> fs0.contains_key(#[trigger] backup_candidate(canon, k))
}

/// Slot `n` is the slot the resolver must choose on `fs0`: a numbered slot
/// whose candidate does not exist while every lower candidate does — the
/// smallest free slot.
pub open spec fn chosen_slot(canon: Seq<char>, n: int, fs0: FsModel) -> bool {
    &&& MIN_SLOT <= n <= MAX_SLOT
    &&& !fs0.contains_key(backup_candidate(canon, n))
    &&& taken_below(canon, n, fs0)
}

/// What must hold of the file and the slot while the machine works towards
/// the rename: the original file exists with formattable content, the path
/// can carry a backup name, and every slot below `n` is taken.
pub open spec fn slot_ready(
    canon: Seq<char>,
    formatted: Seq<char>,
    n: u64,
    fs0: FsModel,
) -> bool {
    &&& fs0.contains_key(canon)
    &&& leap_format(fs0[canon]) == Some(formatted)
    &&& has_file_name(canon)
    &&& MIN_SLOT <= n <= MAX_SLOT
    &&& taken_below(canon, n as int, fs0)
}

/// The machine's invariant, relative to the filesystem `fs0` the run
/// started from: which states are reachable, and exactly how the current
/// filesystem differs from `fs0` in each. Before the rename nothing
/// differs; between rename and write the original content lives under the
/// backup path only; after the write the formatted text is in place and
/// the backup still holds the original content.
pub open spec fn inv(canon: Seq<char>, s: StateV, fs0: FsModel, fs: FsModel) -> bool {
    match s {
        StateV::Canonicalizing { .. } => false,
        StateV::Reading { canon: c, to_stdout: _ } => c == canon && fs == fs0,
        StateV::Probing { canon: c, formatted, n } => {
            &&& c == canon
            &&& fs == fs0
            &&& slot_ready(canon, formatted, n, fs0)
        },
        StateV::Renaming { canon: c, formatted, n } => {
            &&& c == canon
            &&& fs == fs0
            &&& slot_ready(canon, formatted, n, fs0)
            &&& !fs0.contains_key(backup_candidate(canon, n as int))
        },
        StateV::Writing { canon: c, formatted, n } => {
            &&& c == canon
            &&& slot_ready(canon, formatted, n, fs0)
            &&& !fs0.contains_key(backup_candidate(canon, n as int))
            &&& fs == fs0.remove(canon).insert(backup_candidate(canon, n as int), fs0[canon])
        },
        StateV::Removing { canon: c, formatted, n } => {
            &&& c == canon
            &&& slot_ready(canon, formatted, n, fs0)
            &&& !fs0.contains_key(backup_candidate(canon, n as int))
            &&& fs == fs0.remove(canon).insert(backup_candidate(canon, n as int), fs0[canon]).insert(
                canon,
                formatted,
            )
        },
    }
}

/// What each outcome guarantees about the final filesystem `fs2`, relative
/// to the filesystem `fs0` the run started from.
pub open spec fn outcome_post(
    canon: Seq<char>,
    outcome: OutcomeV,
    fs0: FsModel,
    fs2: FsModel,
) -> bool {
    match outcome {
        OutcomeV::ToStdout { text } => {
            &&& fs2 == fs0
            &&& fs0.contains_key(canon)
            &&& leap_format(fs0[canon]) == Some(text)
        },
        OutcomeV::WrittenInPlace => {
            &&& fs0.contains_key(canon)
            &&& (match leap_format(fs0[canon]) {
                Some(f) => fs2 == fs0.insert(canon, f),
                None => false,
            })
            &&& exists|n: int|
                #[trigger] chosen_slot(canon, n, fs0) && !fs2.contains_key(
                    backup_candidate(canon, n),
                )
        },
        OutcomeV::Failed { err } => (match err {
            RewriteError::WriteError => {
                &&& fs0.contains_key(canon)
                &&& exists|n: int|
                    #[trigger] chosen_slot(canon, n, fs0) && fs2 == fs0.remove(canon).insert(
                        backup_candidate(canon, n),
                        fs0[canon],
                    )
            },
            RewriteError::CleanupError => {
                &&& fs0.contains_key(canon)
                &&& (match leap_format(fs0[canon]) {
                    Some(f) => exists|n: int|
                        #[trigger] chosen_slot(canon, n, fs0) && fs2 == fs0.remove(canon).insert(
                            backup_candidate(canon, n),
                            fs0[canon],
                        ).insert(canon, f),
                    None => false,
                })
            },
            RewriteError::PathError => {
                &&& fs2 == fs0
                &&& fs0.contains_key(canon)
                &&& !has_file_name(canon)
            },
            RewriteError::FormatError => {
                &&& fs2 == fs0
                &&& fs0.contains_key(canon)
                &&& leap_format(fs0[canon]) is None
            },
            RewriteError::BackupExhausted => {
                &&& fs2 == fs0
                &&& fs0.contains_key(canon)
                &&& forall|k: int|
                    MIN_SLOT <= k <= MAX_SLOT ==> fs0.contains_key(
                        #[trigger] backup_candidate(canon, k),
                    )
            },
            _ => fs2 == fs0,
        }),
    }
}

/// The protocol's central theorem: from any state satisfying the invariant,
/// a run over truthful events either stays within the invariant or ends in
/// an outcome satisfying [`outcome_post`].
pub proof fn lemma_run_protocol(
    canon: Seq<char>,
    s: StateV,
    events: Seq<EventV>,
    fs0: FsModel,
    fs: FsModel,
)
    requires
        inv(canon, s, fs0, fs),
        events_ok(s, events, fs),
    ensures
        (match run_from(s, events, fs) {
            RunV::Running { state, fs: fs2 } => inv(canon, state, fs0, fs2),
            RunV::Done { outcome, fs: fs2 } => outcome_post(canon, outcome, fs0, fs2),
        }),
    decreases events.len(),
{
    if events.len() > 0 {
        let e = events[0];
        let fs2 = fs_after(s, e, fs);
        match s {
            StateV::Canonicalizing { .. } => {},
            StateV::Reading { canon: c, to_stdout } => {
                match e {
                    EventV::ReadDone { text: Some(t) } => {
                        match leap_format(t) {
                            Some(f) => {
                                if !to_stdout && has_file_name(canon) {
                                    let s2 = StateV::Probing { canon, formatted: f, n: MIN_SLOT };
                                    assert(inv(canon, s2, fs0, fs2));
                                    lemma_run_protocol(canon, s2, events.skip(1), fs0, fs2);
                                }
                            },
                            None => {},
                        }
                    },
                    _ => {},
                }
            },
            StateV::Probing { canon: c, formatted, n } => {
                match e {
                    EventV::Probed { found } => {
                        if !found {
                            let s2 = StateV::Renaming { canon, formatted, n };
                            assert(inv(canon, s2, fs0, fs2));
                            lemma_run_protocol(canon, s2, events.skip(1), fs0, fs2);
                        } else if n < MAX_SLOT {
                            let s2 = StateV::Probing { canon, formatted, n: (n + 1) as u64 };
                            assert(taken_below(canon, n as int + 1, fs0));
                            lemma_run_protocol(canon, s2, events.skip(1), fs0, fs2);
                        }
                    },
                    _ => {},
                }
            },
            StateV::Renaming { canon: c, formatted, n } => {
                match e {
                    EventV::Renamed { ok } => {
                        if ok {
                            let s2 = StateV::Writing { canon, formatted, n };
                            assert(inv(canon, s2, fs0, fs2));
                            lemma_run_protocol(canon, s2, events.skip(1), fs0, fs2);
                        }
                    },
                    _ => {},
                }
            },
            StateV::Writing { canon: c, formatted, n } => {
                match e {
                    EventV::Written { ok } => {
                        if ok {
                            let s2 = StateV::Removing { canon, formatted, n };
                            assert(inv(canon, s2, fs0, fs2));
                            lemma_run_protocol(canon, s2, events.skip(1), fs0, fs2);
                        } else {
                            assert(chosen_slot(canon, n as int, fs0));
                        }
                    },
                    _ => {},
                }
            },
            StateV::Removing { canon: c, formatted, n } => {
                match e {
                    EventV::Removed { ok } => {
                        let cand = backup_candidate(canon, n as int);
                        lemma_candidate_ne_path(canon, n as int);
                        if ok {
                            assert(chosen_slot(canon, n as int, fs0));
                            assert(fs2 =~= fs0.insert(canon, formatted));
                            assert(!fs2.contains_key(cand));
                        } else {
                            assert(chosen_slot(canon, n as int, fs0));
                        }
                    },
                    _ => {},
                }
            },
        }
    }
}

/// The state a rewrite is in once the user's path is canonicalized to
/// `canon`: about to read the file.
pub open spec fn reading(canon: Seq<char>, to_stdout: bool) -> StateV {
    StateV::Reading { canon, to_stdout }
}

/// A rewrite that fails anywhere before the rename — a path, read or
/// format failure, or backup-slot exhaustion, and also a failed rename
/// itself — leaves the filesystem exactly as it was.
pub proof fn lemma_failure_preserves_fs(
    canon: Seq<char>,
    to_stdout: bool,
    events: Seq<EventV>,
    fs0: FsModel,
    err: RewriteError,
    fs2: FsModel,
)
    requires
        events_ok(reading(canon, to_stdout), events, fs0),
        (run_from(reading(canon, to_stdout), events, fs0) == RunV::Done {
            outcome: OutcomeV::Failed { err },
            fs: fs2,
        }),
        err != RewriteError::WriteError,
        err != RewriteError::CleanupError,
    ensures
        fs2 == fs0,
{
    lemma_run_protocol(canon, reading(canon, to_stdout), events, fs0, fs0);
}

/// A rewrite that succeeds leaves, as the whole change to the filesystem,
/// the formatter's output for the file's previous content under the file's
/// own path — and leaves no backup behind: the slot the resolver chose is
/// free again.
pub proof fn lemma_success_rewrites_file(
    canon: Seq<char>,
    events: Seq<EventV>,
    fs0: FsModel,
    fs2: FsModel,
)
    requires
        events_ok(reading(canon, false), events, fs0),
        (run_from(reading(canon, false), events, fs0) == RunV::Done {
            outcome: OutcomeV::WrittenInPlace,
            fs: fs2,
        }),
    ensures
        fs0.contains_key(canon),
        (match leap_format(fs0[canon]) {
            Some(f) => fs2 == fs0.insert(canon, f),
            None => false,
        }),
        exists|n: int|
            #[trigger] chosen_slot(canon, n, fs0) && !fs2.contains_key(
                backup_candidate(canon, n),
            ),
{
    lemma_run_protocol(canon, reading(canon, false), events, fs0, fs0);
}

/// A rewrite that fails at the write itself has already moved the original
/// content to the backup path, and that is the whole change: the previous
/// content is recoverable there.
pub proof fn lemma_write_failure_keeps_backup(
    canon: Seq<char>,
    events: Seq<EventV>,
    fs0: FsModel,
    fs2: FsModel,
)
    requires
        events_ok(reading(canon, false), events, fs0),
        (run_from(reading(canon, false), events, fs0) == RunV::Done {
            outcome: OutcomeV::Failed { err: RewriteError::WriteError },
            fs: fs2,
        }),
    ensures
        fs0.contains_key(canon),
        exists|n: int|
            #[trigger] chosen_slot(canon, n, fs0) && fs2 == fs0.remove(canon).insert(
                backup_candidate(canon, n),
                fs0[canon],
            ),
{
    lemma_run_protocol(canon, reading(canon, false), events, fs0, fs0);
}

/// A rewrite sent to standard output never changes the filesystem, and the
/// emitted text is the formatter's output for the file's content.
pub proof fn lemma_stdout_leaves_fs(
    canon: Seq<char>,
    events: Seq<EventV>,
    fs0: FsModel,
    text: Seq<char>,
    fs2: FsModel,
)
    requires
        events_ok(reading(canon, true), events, fs0),
        (run_from(reading(canon, true), events, fs0) == RunV::Done {
            outcome: OutcomeV::ToStdout { text },
            fs: fs2,
        }),
    ensures
        fs2 == fs0,
        fs0.contains_key(canon),
        leap_format(fs0[canon]) == Some(text),
{
    lemma_run_protocol(canon, reading(canon, true), events, fs0, fs0);
}

/// Backup slot selection is deterministic and minimal: when the candidates
/// for slots `1..=taken` exist and the candidate for `taken + 1` does not,
/// the chosen slot is exactly `taken + 1`.
pub proof fn lemma_backup_slot_minimal(canon: Seq<char>, n: int, taken: int, fs0: FsModel)
    requires
        chosen_slot(canon, n, fs0),
        forall|k: int|
            MIN_SLOT <= k <= taken ==> fs0.contains_key(#[trigger] backup_candidate(canon, k)),
        !fs0.contains_key(backup_candidate(canon, taken + 1)),
        0 <= taken,
        taken + 1 <= MAX_SLOT,
    ensures
        n == taken + 1,
{
    if n <= taken {
        assert(fs0.contains_key(backup_candidate(canon, n)));
    }
    if n > taken + 1 {
        assert(fs0.contains_key(backup_candidate(canon, taken + 1)));
    }
}

/// While all backup slots up from `n` are taken, probing can only walk
/// upwards and fail: a finished run from such a probing state ends in
/// backup exhaustion with the filesystem unchanged.
proof fn lemma_probing_exhausted(
    canon: Seq<char>,
    formatted: Seq<char>,
    n: u64,
    events: Seq<EventV>,
    fs0: FsModel,
)
    requires
        inv(canon, StateV::Probing { canon, formatted, n }, fs0, fs0),
        events_ok(StateV::Probing { canon, formatted, n }, events, fs0),
        forall|k: int|
            MIN_SLOT <= k <= MAX_SLOT ==> fs0.contains_key(#[trigger] backup_candidate(canon, k)),
        run_from(StateV::Probing { canon, formatted, n }, events, fs0) is Done,
    ensures
        (run_from(StateV::Probing { canon, formatted, n }, events, fs0) == RunV::Done {
            outcome: OutcomeV::Failed { err: RewriteError::BackupExhausted },
            fs: fs0,
        }),
    decreases events.len(),
{
    assert(fs0.contains_key(backup_candidate(canon, n as int)));
    if n < MAX_SLOT {
        let s2 = StateV::Probing { canon, formatted, n: (n + 1) as u64 };
        assert(taken_below(canon, n as int + 1, fs0));
        lemma_probing_exhausted(canon, formatted, (n + 1) as u64, events.skip(1), fs0);
    }
}

/// In a directory whose ninety-nine backup slots for the file are all
/// taken, an in-place rewrite of a readable, formattable file fails with
/// backup exhaustion, and the original file is untouched.
pub proof fn lemma_backup_exhausted(
    canon: Seq<char>,
    events: Seq<EventV>,
    fs0: FsModel,
    outcome: OutcomeV,
    fs2: FsModel,
)
    requires
        events_ok(reading(canon, false), events, fs0),
        (run_from(reading(canon, false), events, fs0) == RunV::Done { outcome, fs: fs2 }),
        events.len() > 0,
        (match events[0] {
            EventV::ReadDone { text } => text is Some,
            _ => false,
        }),
        leap_format(fs0[canon]) is Some,
        has_file_name(canon),
        forall|k: int|
            MIN_SLOT <= k <= MAX_SLOT ==> fs0.contains_key(#[trigger] backup_candidate(canon, k)),
    ensures
        outcome == (OutcomeV::Failed { err: RewriteError::BackupExhausted }),
        fs2 == fs0,
{
    let s2 = StateV::Probing { canon, formatted: leap_format(fs0[canon]).unwrap(), n: MIN_SLOT };
    assert(inv(canon, s2, fs0, fs0));
    lemma_probing_exhausted(
        canon,
        leap_format(fs0[canon]).unwrap(),
        MIN_SLOT,
        events.skip(1),
        fs0,
    );
}

/// No backup slot other than `n` differs between `fs0` and `fs`: the run
/// neither creates nor disturbs any other numbered backup of the file.
pub open spec fn untouched_other_slots(canon: Seq<char>, n: int, fs0: FsModel, fs: FsModel) -> bool {
    forall|k: int|
        MIN_SLOT <= k <= MAX_SLOT && k != n ==> {
            &&& fs.contains_key(#[trigger] backup_candidate(canon, k)) == fs0.contains_key(
                backup_candidate(canon, k),
            )
            &&& (fs.contains_key(backup_candidate(canon, k)) ==> fs[backup_candidate(canon, k)]
                == fs0[backup_candidate(canon, k)])
        }
}

/// The crash-safety discipline: at every instant the pre-rewrite content is
/// present — under the original path until the rename succeeds, under this
/// run's backup path from then on — the backup path is vacant when the
/// rename is requested, and no other backup slot is ever touched.
pub open spec fn backup_discipline(canon: Seq<char>, s: StateV, fs0: FsModel, fs: FsModel) -> bool {
    match s {
        StateV::Probing { .. } => fs.contains_key(canon) && fs[canon] == fs0[canon],
        StateV::Renaming { canon: _, formatted: _, n } => {
            &&& fs.contains_key(canon) && fs[canon] == fs0[canon]
            &&& !fs.contains_key(backup_candidate(canon, n as int))
        },
        StateV::Writing { canon: _, formatted: _, n } => {
            &&& !fs.contains_key(canon)
            &&& fs.contains_key(backup_candidate(canon, n as int))
            &&& fs[backup_candidate(canon, n as int)] == fs0[canon]
            &&& untouched_other_slots(canon, n as int, fs0, fs)
        },
        StateV::Removing { canon: _, formatted, n } => {
            &&& fs.contains_key(canon) && fs[canon] == formatted
            &&& fs.contains_key(backup_candidate(canon, n as int))
            &&& fs[backup_candidate(canon, n as int)] == fs0[canon]
            &&& untouched_other_slots(canon, n as int, fs0, fs)
        },
        _ => true,
    }
}

/// Every state the protocol can reach keeps the crash-safety discipline:
/// between the rename and the final cleanup the pre-rewrite content lives
/// under the chosen backup path, before them it lives under the original
/// path, and at most this one backup is ever created.
pub proof fn lemma_backup_discipline(canon: Seq<char>, s: StateV, fs0: FsModel, fs: FsModel)
    requires
        inv(canon, s, fs0, fs),
    ensures
        backup_discipline(canon, s, fs0, fs),
{
    match s {
        StateV::Writing { canon: _, formatted: _, n } => {
            lemma_candidate_ne_path(canon, n as int);
            assert forall|k: int| MIN_SLOT <= k <= MAX_SLOT && k != n as int implies {
                &&& fs.contains_key(#[trigger] backup_candidate(canon, k)) == fs0.contains_key(
                    backup_candidate(canon, k),
                )
                &&& (fs.contains_key(backup_candidate(canon, k)) ==> fs[backup_candidate(canon, k)]
                    == fs0[backup_candidate(canon, k)])
            } by {
                lemma_candidate_ne_path(canon, k);
                lemma_candidate_injective(canon, k, n as int);
            }
        },
        StateV::Removing { canon: _, formatted: _, n } => {
            lemma_candidate_ne_path(canon, n as int);
            assert forall|k: int| MIN_SLOT <= k <= MAX_SLOT && k != n as int implies {
                &&& fs.contains_key(#[trigger] backup_candidate(canon, k)) == fs0.contains_key(
                    backup_candidate(canon, k),
                )
                &&& (fs.contains_key(backup_candidate(canon, k)) ==> fs[backup_candidate(canon, k)]
                    == fs0[backup_candidate(canon, k)])
            } by {
                lemma_candidate_ne_path(canon, k);
                lemma_candidate_injective(canon, k, n as int);
            }
        },
        _ => {},
    }
}

/// The rewrite pipeline does not disturb the formatter's idempotence: when
/// the formatter maps its own output for this file's content to itself,
/// then after a first successful in-place rewrite the file holds that
/// output, and a second successful rewrite emits the same text and changes
/// nothing at all.
pub proof fn lemma_rewrite_idempotent(
    canon: Seq<char>,
    events1: Seq<EventV>,
    events2: Seq<EventV>,
    fs0: FsModel,
    fs1: FsModel,
    fs2: FsModel,
)
    requires
        events_ok(reading(canon, false), events1, fs0),
        (run_from(reading(canon, false), events1, fs0) == RunV::Done {
            outcome: OutcomeV::WrittenInPlace,
            fs: fs1,
        }),
        events_ok(reading(canon, false), events2, fs1),
        (run_from(reading(canon, false), events2, fs1) == RunV::Done {
            outcome: OutcomeV::WrittenInPlace,
            fs: fs2,
        }),
    ensures
        formats_to(leap_format(fs0[canon]).unwrap(), leap_format(fs0[canon]).unwrap()) ==> {
            &&& fs1[canon] == leap_format(fs0[canon]).unwrap()
            &&& fs2[canon] == fs1[canon]
            &&& fs2 == fs1
        },
{
    lemma_success_rewrites_file(canon, events1, fs0, fs1);
    lemma_success_rewrites_file(canon, events2, fs1, fs2);
    let f = leap_format(fs0[canon]).unwrap();
    if formats_to(f, f) {
        assert(fs1 == fs0.insert(canon, f));
        assert(fs1[canon] == f);
        assert(fs2 == fs1.insert(canon, f));
        assert(fs2 =~= fs1);
    }
}

} // verus!
