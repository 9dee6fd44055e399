//! How the editor program and the file to edit are chosen.
use vstd::prelude::*;

verus! {

/// Name of the tool-specific variable that names an editor; consulted first.
pub const CURSIVE_EDITOR_VAR: &'static str = "CURSIVE_EDITOR";

/// Name of the general editor variable; consulted second.
pub const EDITOR_VAR: &'static str = "EDITOR";

/// Name of the visual editor variable; consulted last.
pub const VISUAL_VAR: &'static str = "VISUAL";

/// The values of the environment variables that may name an editor, as read
/// by the caller. `None` means that the variable is not set.
pub struct EditorEnv {
    /// The value of `CURSIVE_EDITOR`.
    pub cursive_editor: Option<String>,
    /// The value of `EDITOR`.
    pub editor: Option<String>,
    /// The value of `VISUAL`.
    pub visual: Option<String>,
}

/// The value of an optional string, as a sequence of characters.
pub open spec fn opt_view(o: Option<String>) -> Option<Seq<char>> {
    match o {
        Some(s) => Some(s@),
        None => None,
    }
}

/// The first of the three variables that is set, in priority order, whatever
/// its value (an empty value counts as set).
pub open spec fn first_set(
    cursive_editor: Option<Seq<char>>,
    editor: Option<Seq<char>>,
    visual: Option<Seq<char>>,
) -> Option<Seq<char>> {
    if cursive_editor is Some {
        cursive_editor
    } else if editor is Some {
        editor
    } else {
        visual
    }
}

impl EditorEnv {
    /// The editor that the environment names, if any.
    pub open spec fn first_set_spec(self) -> Option<Seq<char>> {
        first_set(opt_view(self.cursive_editor), opt_view(self.editor), opt_view(self.visual))
    }
}

/// How to select the editor.
#[derive(Debug, Clone, Default)]
pub enum FindEditorStrategy {
    /// Checks, in order, the `CURSIVE_EDITOR`, `EDITOR`, and `VISUAL`
    /// environment variables, and runs the first one that is set.
    #[default]
    Envs,
    /// Run the editor program at the given path.
    AbsolutePath(String),
}

impl FindEditorStrategy {
    /// The editor path this strategy settles on in the given environment.
    pub open spec fn editor_path_spec(self, env: EditorEnv) -> Option<Seq<char>> {
        match self {
            FindEditorStrategy::Envs => env.first_set_spec(),
            FindEditorStrategy::AbsolutePath(p) => Some(p@),
        }
    }

    /// Helper constructor for `AbsolutePath`.
    pub fn absolute_path(p: String) -> (r: Self)
        ensures
            r == FindEditorStrategy::AbsolutePath(p),
    {
        FindEditorStrategy::AbsolutePath(p)
    }

    /// Turn the strategy into the path of an editor program, given the values
    /// of the environment variables it may consult. `None` when it searches
    /// the environment and none of the variables is set.
    pub fn editor_path(self, env: EditorEnv) -> (r: Option<String>)
        ensures
            opt_view(r) == self.editor_path_spec(env),
    {
        match self {
            FindEditorStrategy::Envs => {
                let EditorEnv { cursive_editor, editor, visual } = env;
                if cursive_editor.is_some() {
                    cursive_editor
                } else if editor.is_some() {
                    editor
                } else {
                    visual
                }
            },
            FindEditorStrategy::AbsolutePath(p) => Some(p),
        }
    }
}

/// Relies on the declaration of `tempfile::TempPath`: the path of a
/// temporary file that is deleted when the value is dropped.
#[verifier::external_type_specification]
#[verifier::external_body]
pub struct ExTempPath(tempfile::TempPath);

/// Relies on the declaration of `std::io::Error`, carried through unread.
#[verifier::external_type_specification]
#[verifier::external_body]
pub struct ExIoError(std::io::Error);

/// Relies on `tempfile::NamedTempFile::new`, which creates a new, uniquely
/// named file in the system's temporary directory, and on
/// `NamedTempFile::into_temp_path`, which closes it and keeps the guard that
/// deletes it on drop. The path comes back beside the guard, as text.
#[verifier::external_body]
fn create_temp_path() -> (r: Result<(tempfile::TempPath, String), std::io::Error>) {
    let file = tempfile::NamedTempFile::new()?;
    let guard = file.into_temp_path();
    let path = guard.to_string_lossy().into_owned();
    Ok((guard, path))
}

/// Relies on `tempfile::TempPath::keep`: on success the file is no longer
/// deleted on drop; on failure the error hands back the very guard it was
/// given, still armed.
#[verifier::external_body]
fn keep_temp_path(guard: tempfile::TempPath) -> (r: Result<(), (tempfile::TempPath, std::io::Error)>)
    ensures
        r matches Err((back, _)) ==> back == guard,
{
    match guard.keep() {
        Ok(_) => Ok(()),
        Err(e) => Err((e.path, e.error)),
    }
}

/// How to select which file to open.
#[derive(Debug, Clone, Default)]
pub enum EditPathStrategy {
    /// Make a temporary file and open that.
    #[default]
    MakeTmp,
    /// Open the file at the given path.
    GivePath(String),
}

/// Who is responsible for the file behind an [`EditPathStrategyOut`].
#[derive(Clone, Copy, Debug, PartialEq, Eq, Structural)]
pub enum TargetMode {
    /// The path belongs to the caller; nothing is deleted.
    Borrowed,
    /// The path is a temporary file that is deleted when the handle is
    /// dropped.
    Guarded,
}

/// What an [`EditPathStrategyOut`] stands for: a path and who owns its file.
pub struct TargetView {
    pub path: Seq<char>,
    pub mode: TargetMode,
}

impl EditPathStrategy {
    /// Return a path to edit a file at.
    ///
    /// `MakeTmp` creates a temporary file, which the returned handle deletes
    /// when it is dropped unless it is persisted first. Keep the handle until
    /// you are through with the file. `GivePath` never touches the file
    /// system.
    pub fn file_path(self) -> (r: Result<EditPathStrategyOut, std::io::Error>)
        ensures
            self matches EditPathStrategy::GivePath(p) ==> (r matches Ok(out) && out@ == (
            TargetView { path: p@, mode: TargetMode::Borrowed })),
            self is MakeTmp ==> (r matches Ok(out) ==> out@.mode == TargetMode::Guarded),
    {
        match self {
            EditPathStrategy::MakeTmp => {
                let (guard, path) = create_temp_path()?;
                Ok(EditPathStrategyOut(EditPathStrategyOutInner::MadeTmp(guard, path)))
            },
            EditPathStrategy::GivePath(path) => {
                Ok(EditPathStrategyOut(EditPathStrategyOutInner::GivenPath(path)))
            },
        }
    }
}

/// The path an [`EditPathStrategy`] settled on.
///
/// This may hold the guard of a temporary file: dropping the handle before
/// the file has been read (for example, keeping only its path) deletes the
/// file.
pub struct EditPathStrategyOut(EditPathStrategyOutInner);

pub(crate) enum EditPathStrategyOutInner {
    GivenPath(String),
    MadeTmp(tempfile::TempPath, String),
}

impl View for EditPathStrategyOut {
    type V = TargetView;

    closed spec fn view(&self) -> TargetView {
        match self.0 {
            EditPathStrategyOutInner::GivenPath(p) => TargetView { path: p@, mode: TargetMode::Borrowed },
            EditPathStrategyOutInner::MadeTmp(_, p) => TargetView { path: p@, mode: TargetMode::Guarded },
        }
    }
}

impl EditPathStrategyOut {
    /// The guard of the temporary file, when the handle holds one.
    pub closed spec fn guard(&self) -> Option<tempfile::TempPath> {
        match self.0 {
            EditPathStrategyOutInner::GivenPath(_) => None,
            EditPathStrategyOutInner::MadeTmp(g, _) => Some(g),
        }
    }

    /// Whether the handle owns a temporary file.
    pub fn mode(&self) -> (r: TargetMode)
        ensures
            r == self@.mode,
            (r == TargetMode::Guarded) == (self.guard() is Some),
    {
        match &self.0 {
            EditPathStrategyOutInner::GivenPath(_) => TargetMode::Borrowed,
            EditPathStrategyOutInner::MadeTmp(_, _) => TargetMode::Guarded,
        }
    }

    /// Get the path edited.
    pub fn path(&self) -> (r: String)
        ensures
            r@ == self@.path,
    {
        match &self.0 {
            EditPathStrategyOutInner::GivenPath(p) => p.clone(),
            EditPathStrategyOutInner::MadeTmp(_, p) => p.clone(),
        }
    }

    /// If this is a temporary file, make the file persistent: it is no
    /// longer deleted when the handle is dropped, and cleaning it up is the
    /// caller's business. On a borrowed path this does nothing. On failure
    /// the handle keeps its guard, and the file is still deleted on drop.
    pub fn persist(&mut self) -> (r: Result<(), std::io::Error>)
        ensures
            final(self)@.path == old(self)@.path,
            old(self)@.mode == TargetMode::Borrowed ==> (r is Ok && final(self)@ == old(self)@),
            r is Ok ==> final(self)@.mode == TargetMode::Borrowed,
            r is Err ==> (old(self)@.mode == TargetMode::Guarded && final(self)@.mode
                == TargetMode::Guarded && final(self).guard() == old(self).guard()),
    {
        if let EditPathStrategyOutInner::GivenPath(_) = &self.0 {
            return Ok(());
        }
        let mut inner = EditPathStrategyOutInner::GivenPath(String::new());
        core::mem::swap(&mut self.0, &mut inner);
        match inner {
            EditPathStrategyOutInner::MadeTmp(guard, path) => {
                match keep_temp_path(guard) {
                    Ok(()) => {
                        self.0 = EditPathStrategyOutInner::GivenPath(path);
                        Ok(())
                    },
                    Err((back, e)) => {
                        self.0 = EditPathStrategyOutInner::MadeTmp(back, path);
                        Err(e)
                    },
                }
            },
            EditPathStrategyOutInner::GivenPath(path) => {
                self.0 = EditPathStrategyOutInner::GivenPath(path);
                Ok(())
            },
        }
    }
}

} // verus!
