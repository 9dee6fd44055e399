//! The suspend, run and restore sequence around one run of an editor.
//!
//! An [`EditSession`] decides what happens next; the caller performs it (takes
//! a snapshot of the screen, spawns or waits on the process, restores the
//! screen) and reports back what came of it. The screen is never left
//! suspended: once a snapshot was taken, the only way to the end of the
//! session goes through exactly one restore.
use vstd::prelude::*;

use crate::strategy::{
    EditPathStrategy, EditPathStrategyOut, EditorEnv, FindEditorStrategy, TargetMode,
    TargetView,
};

verus! {

/// How the editor will be opened.
pub struct CursiveOpenEditorOptions {
    /// How to pick which editor program to run. By default, check (in
    /// order) the `CURSIVE_EDITOR`, `EDITOR`, and `VISUAL` environment
    /// variables.
    pub editor_strategy: FindEditorStrategy,
    /// Additional arguments to pass to the editor program. The file path to
    /// edit is always passed as the last argument, after all of these.
    pub additional_args: Vec<String>,
    /// How to pick what file to edit. By default, create a temporary file.
    pub edit_path_strategy: EditPathStrategy,
}

impl Default for CursiveOpenEditorOptions {
    fn default() -> (r: Self)
        ensures
            r.editor_strategy is Envs,
            r.edit_path_strategy is MakeTmp,
            r.additional_args@.len() == 0,
    {
        CursiveOpenEditorOptions {
            editor_strategy: FindEditorStrategy::Envs,
            additional_args: Vec::new(),
            edit_path_strategy: EditPathStrategy::MakeTmp,
        }
    }
}

/// How the editor process ended.
#[derive(Clone, Copy, Debug, PartialEq, Eq, Structural)]
pub struct EditorExit {
    /// The exit code, or `None` when the process ended without one (killed
    /// by a signal).
    pub code: Option<i32>,
}

impl EditorExit {
    /// Whether the process ended successfully: with exit code zero.
    pub fn success(&self) -> (r: bool)
        ensures
            r == (self.code == Some(0i32)),
    {
        match self.code {
            Some(c) => c == 0,
            None => false,
        }
    }
}

/// Why an edit session, or a check on its outcome, failed.
pub enum SessionError {
    /// The editor strategy named no editor.
    EditorNotFound,
    /// The file to edit could not be made.
    TargetResolutionFailed(std::io::Error),
    /// The editor process could not be started.
    SpawnFailed(std::io::Error),
    /// The exit status of the editor process could not be had.
    WaitFailed(std::io::Error),
    /// The editor ran and ended unsuccessfully.
    NonZeroExit(EditorExit),
}

/// The command line of the editor: the program, then its arguments.
pub struct Invocation {
    pub program: String,
    pub args: Vec<String>,
}

/// Builds the editor's command line: the extra arguments in the order given,
/// then the path of the file to edit, always last.
pub fn build_invocation(program: String, extra_args: Vec<String>, target: String) -> (r:
    Invocation)
    ensures
        r.program == program,
        r.args@ == extra_args@.push(target),
{
    let mut args = extra_args;
    args.push(target);
    Invocation { program, args }
}

/// Where a session stands.
#[derive(Clone, Copy, Debug, PartialEq, Eq, Structural)]
pub enum Phase {
    /// Editor and file are settled; the screen is untouched.
    Prepared,
    /// The screen was saved and cleared; the editor is not started yet.
    Suspended,
    /// The editor process is running.
    Running,
    /// The editor ended, or could not be started or waited on; the screen
    /// is still suspended.
    Ended,
    /// The screen was restored; the session can be finished.
    Restored,
}

/// What the caller is to do next.
#[derive(Clone, Copy, Debug, PartialEq, Eq, Structural)]
pub enum SessionAction {
    /// Save the screen's state and clear it.
    SnapshotAndClear,
    /// Start the editor process with the session's invocation.
    Spawn,
    /// Wait for the editor process to end.
    Wait,
    /// Restore the screen from the saved state.
    Restore,
    /// Call [`EditSession::finish`].
    Finish,
}

/// What came of the action the caller performed.
pub enum SessionEvent {
    /// The screen was saved and cleared.
    Suspended,
    /// The editor process started.
    Spawned,
    /// The editor process could not be started.
    SpawnFailed(std::io::Error),
    /// The editor process ended.
    Exited(EditorExit),
    /// Waiting on the editor process failed.
    WaitFailed(std::io::Error),
    /// The screen was restored.
    Restored,
}

/// The state of a session, with how often the screen was saved and
/// restored, and what the session will return once it is over.
pub struct SessionView {
    pub phase: Phase,
    pub snapshots: nat,
    pub restores: nat,
    pub result: Option<Result<EditorExit, SessionError>>,
}

/// The action that each phase asks for.
pub open spec fn action_of(phase: Phase) -> SessionAction {
    match phase {
        Phase::Prepared => SessionAction::SnapshotAndClear,
        Phase::Suspended => SessionAction::Spawn,
        Phase::Running => SessionAction::Wait,
        Phase::Ended => SessionAction::Restore,
        Phase::Restored => SessionAction::Finish,
    }
}

/// Whether an event answers the action that the phase asks for.
pub open spec fn answers(phase: Phase, event: SessionEvent) -> bool {
    match (phase, event) {
        (Phase::Prepared, SessionEvent::Suspended) => true,
        (Phase::Suspended, SessionEvent::Spawned) => true,
        (Phase::Suspended, SessionEvent::SpawnFailed(_)) => true,
        (Phase::Running, SessionEvent::Exited(_)) => true,
        (Phase::Running, SessionEvent::WaitFailed(_)) => true,
        (Phase::Ended, SessionEvent::Restored) => true,
        _ => false,
    }
}

/// The state after an event; an event that does not answer the current
/// action leaves the state as it is.
pub open spec fn step(v: SessionView, event: SessionEvent) -> SessionView {
    if !answers(v.phase, event) {
        v
    } else {
        match event {
            SessionEvent::Suspended => SessionView {
                phase: Phase::Suspended,
                snapshots: v.snapshots + 1,
                ..v
            },
            SessionEvent::Spawned => SessionView { phase: Phase::Running, ..v },
            SessionEvent::SpawnFailed(e) => SessionView {
                phase: Phase::Ended,
                result: Some(Err(SessionError::SpawnFailed(e))),
                ..v
            },
            SessionEvent::Exited(st) => SessionView {
                phase: Phase::Ended,
                result: Some(Ok(st)),
                ..v
            },
            SessionEvent::WaitFailed(e) => SessionView {
                phase: Phase::Ended,
                result: Some(Err(SessionError::WaitFailed(e))),
                ..v
            },
            SessionEvent::Restored => SessionView {
                phase: Phase::Restored,
                restores: v.restores + 1,
                ..v
            },
        }
    }
}

/// The state of a session that was just prepared.
pub open spec fn prepared_view() -> SessionView {
    SessionView { phase: Phase::Prepared, snapshots: 0, restores: 0, result: None }
}

/// The state after a sequence of events, from `v`.
pub open spec fn run_events(v: SessionView, events: Seq<SessionEvent>) -> SessionView
    decreases events.len(),
{
    if events.len() == 0 {
        v
    } else {
        run_events(step(v, events[0]), events.drop_first())
    }
}

/// How the counters and the result go with the phase.
pub open spec fn consistent(v: SessionView) -> bool {
    match v.phase {
        Phase::Prepared => v.snapshots == 0 && v.restores == 0 && v.result is None,
        Phase::Suspended | Phase::Running => v.snapshots == 1 && v.restores == 0
            && v.result is None,
        Phase::Ended => v.snapshots == 1 && v.restores == 0 && v.result is Some,
        Phase::Restored => v.snapshots == 1 && v.restores == 1 && v.result is Some,
    }
}

/// A step keeps the counters and the result in line with the phase.
pub proof fn lemma_step_consistent(v: SessionView, event: SessionEvent)
    requires
        consistent(v),
    ensures
        consistent(step(v, event)),
{
}

/// Any sequence of events keeps the counters and the result in line with the
/// phase.
pub proof fn lemma_run_consistent(v: SessionView, events: Seq<SessionEvent>)
    requires
        consistent(v),
    ensures
        consistent(run_events(v, events)),
    decreases events.len(),
{
    if events.len() > 0 {
        lemma_step_consistent(v, events[0]);
        lemma_run_consistent(step(v, events[0]), events.drop_first());
    }
}

/// Whatever the caller reports, a session started from a prepared one saves
/// the screen at most once and restores it at most once, never before it
/// was saved; it asks to be finished exactly when the screen was saved and
/// restored once each, and while the screen is saved and not yet restored
/// it asks for nothing but spawning, waiting or restoring.
pub proof fn lemma_suspend_restore_paired(events: Seq<SessionEvent>)
    ensures
        ({
            let v = run_events(prepared_view(), events);
            &&& v.restores <= v.snapshots <= 1
            &&& (action_of(v.phase) == SessionAction::Finish) == (v.snapshots == 1 && v.restores
                == 1)
            &&& v.snapshots > v.restores ==> (action_of(v.phase) == SessionAction::Spawn
                || action_of(v.phase) == SessionAction::Wait || action_of(v.phase)
                == SessionAction::Restore)
        }),
{
    lemma_run_consistent(prepared_view(), events);
}

/// When the editor cannot be started, the screen is restored all the same,
/// and only then does the session end, with the spawn error.
pub proof fn lemma_spawn_failure_restores(e: std::io::Error)
    ensures
        action_of(run_events(prepared_view(), seq![SessionEvent::Suspended, SessionEvent::SpawnFailed(e)]).phase)
            == SessionAction::Restore,
        run_events(
            prepared_view(),
            seq![SessionEvent::Suspended, SessionEvent::SpawnFailed(e), SessionEvent::Restored],
        ) == (SessionView {
            phase: Phase::Restored,
            snapshots: 1,
            restores: 1,
            result: Some(Err(SessionError::SpawnFailed(e))),
        }),
{
    reveal_with_fuel(run_events, 4);
}

/// An editor that runs and exits, successfully or not, ends the session
/// with its exit status and no error.
pub proof fn lemma_exit_status_transparent(st: EditorExit)
    ensures
        run_events(
            prepared_view(),
            seq![
                SessionEvent::Suspended,
                SessionEvent::Spawned,
                SessionEvent::Exited(st),
                SessionEvent::Restored,
            ],
        ) == (SessionView {
            phase: Phase::Restored,
            snapshots: 1,
            restores: 1,
            result: Some(Ok(st)),
        }),
{
    reveal_with_fuel(run_events, 5);
}

/// Information about the editor that ran.
pub struct EditorOpened {
    pub status: EditorExit,
    pub edited_path: EditPathStrategyOut,
}

impl EditorOpened {
    /// An error if the editor did not exit successfully. The file may still
    /// have been edited: this is only a helper for callers that care.
    pub fn status_ok(&self) -> (r: Result<(), SessionError>)
        ensures
            r is Ok == (self.status.code == Some(0i32)),
            r matches Err(e) ==> e == SessionError::NonZeroExit(self.status),
    {
        if self.status.success() {
            Ok(())
        } else {
            Err(SessionError::NonZeroExit(self.status))
        }
    }

    /// The path that was edited.
    pub fn edited_path(&self) -> (r: String)
        ensures
            r@ == self.edited_path@.path,
    {
        self.edited_path.path()
    }
}

/// Where a session stands, and how often it had the screen saved and
/// restored.
struct Stage {
    phase: Phase,
    snapshots: Ghost<nat>,
    restores: Ghost<nat>,
}

/// A session's stage and what it will return.
struct Progress {
    stage: Stage,
    result: Option<Result<EditorExit, SessionError>>,
}

/// One run of an editor, from the settled editor and file to the outcome.
pub struct EditSession {
    invocation: Invocation,
    target: EditPathStrategyOut,
    progress: Progress,
}

impl View for EditSession {
    type V = SessionView;

    closed spec fn view(&self) -> SessionView {
        SessionView {
            phase: self.progress.stage.phase,
            snapshots: self.progress.stage.snapshots@,
            restores: self.progress.stage.restores@,
            result: self.progress.result,
        }
    }
}

impl EditSession {
    #[verifier::type_invariant]
    spec fn inv(&self) -> bool {
        consistent(self@)
    }

    /// The editor's command line.
    pub closed spec fn invocation_spec(&self) -> Invocation {
        self.invocation
    }

    /// The file being edited.
    pub closed spec fn target_spec(&self) -> EditPathStrategyOut {
        self.target
    }

    /// Settles the editor and the file to edit, before the screen is
    /// touched. Fails with `EditorNotFound` exactly when the strategy names
    /// no editor; otherwise fails only when a temporary file was asked for
    /// and could not be made.
    pub fn prepare(options: CursiveOpenEditorOptions, env: EditorEnv) -> (r: Result<
        EditSession,
        SessionError,
    >)
        ensures
            (r matches Err(SessionError::EditorNotFound)) == (
            options.editor_strategy.editor_path_spec(env) is None),
            r matches Err(e) ==> (e is EditorNotFound || (e is TargetResolutionFailed
                && options.edit_path_strategy is MakeTmp)),
            (options.editor_strategy.editor_path_spec(env) is Some
                && options.edit_path_strategy is GivePath) ==> r is Ok,
            r matches Ok(s) ==> {
                &&& s@ == prepared_view()
                &&& options.editor_strategy.editor_path_spec(env) == Some(
                    s.invocation_spec().program@,
                )
                &&& s.invocation_spec().args@.len() == options.additional_args@.len() + 1
                &&& s.invocation_spec().args@.take(options.additional_args@.len() as int)
                    == options.additional_args@
                &&& s.invocation_spec().args@.last()@ == s.target_spec()@.path
                &&& options.edit_path_strategy matches EditPathStrategy::GivePath(p) ==> (
                s.target_spec()@ == (TargetView { path: p@, mode: TargetMode::Borrowed }))
                &&& options.edit_path_strategy is MakeTmp ==> s.target_spec()@.mode
                    == TargetMode::Guarded
            },
    {
        let CursiveOpenEditorOptions { editor_strategy, additional_args, edit_path_strategy } =
            options;
        let program = match editor_strategy.editor_path(env) {
            Some(p) => p,
            None => {
                return Err(SessionError::EditorNotFound);
            },
        };
        let target = match edit_path_strategy.file_path() {
            Ok(t) => t,
            Err(e) => {
                return Err(SessionError::TargetResolutionFailed(e));
            },
        };
        let n = additional_args.len();
        let invocation = build_invocation(program, additional_args, target.path());
        let session = EditSession {
            invocation,
            target,
            progress: Progress {
                stage: Stage { phase: Phase::Prepared, snapshots: Ghost(0), restores: Ghost(0) },
                result: None,
            },
        };
        Ok(session)
    }

    /// What the caller is to do next.
    pub fn next_action(&self) -> (r: SessionAction)
        ensures
            r == action_of(self@.phase),
    {
        match self.progress.stage.phase {
            Phase::Prepared => SessionAction::SnapshotAndClear,
            Phase::Suspended => SessionAction::Spawn,
            Phase::Running => SessionAction::Wait,
            Phase::Ended => SessionAction::Restore,
            Phase::Restored => SessionAction::Finish,
        }
    }

    /// Reports what came of the last action. An event that does not answer
    /// the action asked for is refused and changes nothing.
    pub fn advance(&mut self, event: SessionEvent) -> (accepted: bool)
        ensures
            accepted == answers(old(self)@.phase, event),
            final(self)@ == step(old(self)@, event),
            final(self).invocation_spec() == old(self).invocation_spec(),
            final(self).target_spec() == old(self).target_spec(),
    {
        proof {
            use_type_invariant(&*self);
        }
        let snapshots = self.progress.stage.snapshots;
        let restores = self.progress.stage.restores;
        match (self.progress.stage.phase, event) {
            (Phase::Prepared, SessionEvent::Suspended) => {
                self.progress = Progress {
                    stage: Stage { phase: Phase::Suspended, snapshots: Ghost(snapshots@ + 1), restores },
                    result: None,
                };
                true
            },
            (Phase::Suspended, SessionEvent::Spawned) => {
                self.progress = Progress {
                    stage: Stage { phase: Phase::Running, snapshots, restores },
                    result: None,
                };
                true
            },
            (Phase::Suspended, SessionEvent::SpawnFailed(e)) => {
                self.progress = Progress {
                    stage: Stage { phase: Phase::Ended, snapshots, restores },
                    result: Some(Err(SessionError::SpawnFailed(e))),
                };
                true
            },
            (Phase::Running, SessionEvent::Exited(st)) => {
                self.progress = Progress {
                    stage: Stage { phase: Phase::Ended, snapshots, restores },
                    result: Some(Ok(st)),
                };
                true
            },
            (Phase::Running, SessionEvent::WaitFailed(e)) => {
                self.progress = Progress {
                    stage: Stage { phase: Phase::Ended, snapshots, restores },
                    result: Some(Err(SessionError::WaitFailed(e))),
                };
                true
            },
            (Phase::Ended, SessionEvent::Restored) => {
                self.progress.stage = Stage {
                    phase: Phase::Restored,
                    snapshots,
                    restores: Ghost(restores@ + 1),
                };
                true
            },
            _ => false,
        }
    }

    /// The editor's command line.
    pub fn invocation(&self) -> (r: &Invocation)
        ensures
            *r == self.invocation_spec(),
    {
        &self.invocation
    }

    /// The file being edited.
    pub fn target(&self) -> (r: &EditPathStrategyOut)
        ensures
            *r == self.target_spec(),
    {
        &self.target
    }

    /// Ends a session whose screen was restored: the editor's exit status
    /// and the edited file, or the error that stopped the editor.
    pub fn finish(self) -> (r: Result<EditorOpened, SessionError>)
        requires
            self@.phase == Phase::Restored,
        ensures
            self@.result matches Some(Ok(st)) ==> (r matches Ok(o) && o.status == st
                && o.edited_path == self.target_spec()),
            self@.result matches Some(Err(e)) ==> (r matches Err(e2) && e2 == e),
    {
        proof {
            use_type_invariant(&self);
        }
        let EditSession { target, progress, .. } = self;
        match progress.result {
            Some(Ok(status)) => Ok(EditorOpened { status, edited_path: target }),
            Some(Err(e)) => Err(e),
            None => vstd::pervasive::unreached(),
        }
    }
}

} // verus!
