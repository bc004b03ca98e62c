//! Revealing a file in the platform's file manager: which helper to start
//! and on what, and the order of the calls into the platform's shell.
//! Looking at the file system, starting the helper and calling the shell are
//! the caller's part.

use crate::error::{fails_with, CoreError, CoreErrorModel};
use crate::text::joined;
use crate::process::{Invocation, InvocationModel};
use vstd::prelude::*;

verus! {

/// How the platform reveals a file. One strategy is chosen when the
/// application is built or started, and used from then on.
#[derive(Debug, Clone, Copy, PartialEq, Eq)]
pub enum RevealStrategy {
    /// The shell's own call that opens a folder and selects an item in it.
    ShellApi,
    /// The `open` utility, which can reveal a file in its folder.
    OpenUtility,
    /// The `xdg-open` launcher, which opens a folder and selects nothing.
    DesktopLauncher,
}

/// What is to be done to reveal a path.
#[derive(Debug, PartialEq, Eq)]
pub enum RevealPlan {
    /// The path is to be selected through the shell: see [`shell_initialized`].
    SelectInShell(String),
    /// The helper is to be started and left to itself.
    Spawn(Invocation),
}

/// The mathematical value of a [`RevealPlan`].
pub enum RevealPlanModel {
    SelectInShell(Seq<char>),
    Spawn(InvocationModel),
}

impl View for RevealPlan {
    type V = RevealPlanModel;

    open spec fn view(&self) -> RevealPlanModel {
        match self {
            RevealPlan::SelectInShell(path) => RevealPlanModel::SelectInShell(path@),
            RevealPlan::Spawn(invocation) => RevealPlanModel::Spawn(invocation@),
        }
    }
}

/// The path without its final component, as `std::path::Path::parent` gives
/// it under the path syntax of the platform that the library is built for;
/// none where the path ends in a root or is empty.
pub uninterp spec fn parent_of(path: Seq<char>) -> Option<Seq<char>>;

/// `std::path::Path::parent` on `path`: the outcome is a function of the
/// path's text alone, and [`parent_of`] is its name. The parent of a path
/// that is a string is a string too.
#[verifier::external_body]
fn path_parent(path: &str) -> (r: Option<String>)
    ensures
        match r {
            Some(parent) => parent_of(path@) == Some(parent@),
            None => parent_of(path@).is_none(),
        },
{
    std::path::Path::new(path).parent().and_then(|parent| parent.to_str()).map(|parent| parent.to_string())
}

/// What the `open` utility is started on: a folder itself; a file with the
/// flag that reveals it rather than opens it.
pub open spec fn open_utility_invocation(path: Seq<char>, is_dir: bool) -> InvocationModel {
    InvocationModel {
        program: "open"@,
        args: if is_dir {
            seq![path]
        } else {
            seq!["-R"@, path]
        },
    }
}

/// What the launcher opens to reveal `path`, whose parent is `parent`: a
/// folder itself; for a file the folder that holds it, or the path itself
/// where it has no parent.
pub open spec fn launcher_target(path: Seq<char>, is_dir: bool, parent: Option<Seq<char>>) -> Seq<
    char,
> {
    if is_dir {
        path
    } else {
        match parent {
            Some(parent) => parent,
            None => path,
        }
    }
}

/// What the launcher is started on.
pub open spec fn launcher_invocation(target: Seq<char>) -> InvocationModel {
    InvocationModel { program: "xdg-open"@, args: seq![target] }
}

/// What is to be done to reveal the existing path `path` under `strategy`.
pub open spec fn reveal_plan(strategy: RevealStrategy, path: Seq<char>, is_dir: bool) -> RevealPlanModel {
    match strategy {
        RevealStrategy::ShellApi => RevealPlanModel::SelectInShell(path),
        RevealStrategy::OpenUtility => RevealPlanModel::Spawn(
            open_utility_invocation(path, is_dir),
        ),
        RevealStrategy::DesktopLauncher => RevealPlanModel::Spawn(
            launcher_invocation(launcher_target(path, is_dir, parent_of(path))),
        ),
    }
}

/// The invocation of the `open` utility that reveals `path`.
pub fn open_utility_command(path: &str, is_dir: bool) -> (r: Invocation)
    ensures
        r@ == open_utility_invocation(path@, is_dir),
{
    let mut args: Vec<String> = Vec::new();
    if !is_dir {
        args.push("-R".to_owned());
    }
    args.push(path.to_owned());
    let r = Invocation { program: "open".to_owned(), args };
    assert(r@.args =~= open_utility_invocation(path@, is_dir).args);
    r
}

/// The invocation of the launcher that reveals `path`, whose parent is
/// `parent`.
pub fn launcher_command(path: &str, is_dir: bool, parent: Option<String>) -> (r: Invocation)
    ensures
        r@ == launcher_invocation(
            launcher_target(
                path@,
                is_dir,
                match parent {
                    Some(parent) => Some(parent@),
                    None => None,
                },
            ),
        ),
{
    let target: String = if is_dir {
        path.to_owned()
    } else {
        match parent {
            Some(parent) => parent,
            None => path.to_owned(),
        }
    };
    let ghost shown = target@;
    let mut args: Vec<String> = Vec::new();
    args.push(target);
    let r = Invocation { program: "xdg-open".to_owned(), args };
    assert(r@.args =~= seq![shown]);
    r
}

/// Decides what is to be done to reveal `path`. A path that does not exist
/// is refused before anything is dispatched to the platform.
pub fn plan_reveal(strategy: RevealStrategy, path: &str, exists: bool, is_dir: bool) -> (r: Result<
    RevealPlan,
    CoreError,
>)
    ensures
        !exists ==> fails_with(r, CoreErrorModel::FileNotFound),
        exists ==> (r matches Ok(plan) && plan@ == reveal_plan(strategy, path@, is_dir)),
{
    if !exists {
        return Err(CoreError::FileNotFound);
    }
    match strategy {
        RevealStrategy::ShellApi => Ok(RevealPlan::SelectInShell(path.to_owned())),
        RevealStrategy::OpenUtility => Ok(RevealPlan::Spawn(open_utility_command(path, is_dir))),
        RevealStrategy::DesktopLauncher => Ok(
            RevealPlan::Spawn(launcher_command(path, is_dir, path_parent(path))),
        ),
    }
}

/// Reads the outcome of starting the helper. Only a helper that could not
/// be started is a failure: what it does afterwards is not looked at.
pub fn finish_reveal(started: Result<(), String>) -> (r: Result<(), CoreError>)
    ensures
        match started {
            Ok(_) => r.is_ok(),
            Err(reason) => fails_with(r, CoreErrorModel::ProcessSpawnFailed(reason@)),
        },
{
    match started {
        Ok(_) => Ok(()),
        Err(reason) => Err(CoreError::ProcessSpawnFailed(reason)),
    }
}

/// What the initialization of the shell's component model on the calling
/// thread reported.
#[derive(Debug, PartialEq, Eq)]
pub enum InitOutcome {
    /// The thread is initialized now, and has to be uninitialized again.
    Ready,
    /// The thread had been initialized in another threading mode: the shell
    /// can be called, and there is nothing to undo.
    ChangedMode,
    /// The initialization failed; the text describes the status.
    Failed(String),
}

/// A thread ready to call the shell.
#[derive(Debug, PartialEq, Eq)]
pub struct ShellSession {
    /// Whether this session initialized the thread.
    pub owns_initialization: bool,
}

/// A session that holds the item list of the path to select.
#[derive(Debug, PartialEq, Eq)]
pub struct ShellSelection {
    /// Whether this session initialized the thread.
    pub owns_initialization: bool,
}

/// The end of a session: what is to be released, the item list first, and
/// what the caller is told.
#[derive(Debug, PartialEq, Eq)]
pub struct ShellExit {
    pub free_item_list: bool,
    pub uninitialize: bool,
    pub outcome: Result<(), CoreError>,
}

/// What follows the attempt to make the item list.
#[derive(Debug, PartialEq, Eq)]
pub enum AfterItemList {
    /// The list exists: the selection is to be shown.
    Show(ShellSelection),
    /// There is no list: the session ends.
    Exit(ShellExit),
}

/// Takes the outcome of the initialization. A thread that was initialized
/// in another mode is as good as one initialized now, but is not this
/// session's to uninitialize.
pub fn shell_initialized(outcome: InitOutcome) -> (r: Result<ShellSession, CoreError>)
    ensures
        match outcome {
            InitOutcome::Ready => r matches Ok(session) && session.owns_initialization,
            InitOutcome::ChangedMode => r matches Ok(session) && !session.owns_initialization,
            InitOutcome::Failed(status) => fails_with(
                r,
                CoreErrorModel::PlatformApiFailed("COM init failed: "@ + status@),
            ),
        },
{
    match outcome {
        InitOutcome::Ready => Ok(ShellSession { owns_initialization: true }),
        InitOutcome::ChangedMode => Ok(ShellSession { owns_initialization: false }),
        InitOutcome::Failed(status) => Err(
            CoreError::PlatformApiFailed(joined("COM init failed: ", status.as_str())),
        ),
    }
}

impl ShellSession {
    /// Takes the outcome of making the item list. Without a list the
    /// session ends: there is no list to free, and the thread is
    /// uninitialized if this session initialized it.
    pub fn item_list_created(self, created: bool) -> (r: AfterItemList)
        ensures
            created ==> (r matches AfterItemList::Show(selection) && selection.owns_initialization
                == self.owns_initialization),
            !created ==> (r matches AfterItemList::Exit(exit) && !exit.free_item_list
                && exit.uninitialize == self.owns_initialization && fails_with(
                exit.outcome,
                CoreErrorModel::PlatformApiFailed("Failed to create PIDL"@),
            )),
    {
        if created {
            AfterItemList::Show(ShellSelection { owns_initialization: self.owns_initialization })
        } else {
            AfterItemList::Exit(
                ShellExit {
                    free_item_list: false,
                    uninitialize: self.owns_initialization,
                    outcome: Err(CoreError::PlatformApiFailed("Failed to create PIDL".to_owned())),
                },
            )
        }
    }
}

impl ShellSelection {
    /// Takes the outcome of showing the selection. Whatever it is, the item
    /// list is freed, and the thread is uninitialized if this session
    /// initialized it.
    pub fn shown(self, result: Result<(), String>) -> (r: ShellExit)
        ensures
            r.free_item_list,
            r.uninitialize == self.owns_initialization,
            match result {
                Ok(_) => r.outcome.is_ok(),
                Err(status) => fails_with(
                    r.outcome,
                    CoreErrorModel::PlatformApiFailed("Open folder failed: "@ + status@),
                ),
            },
    {
        let outcome = match result {
            Ok(_) => Ok(()),
            Err(status) => Err(
                CoreError::PlatformApiFailed(joined("Open folder failed: ", status.as_str())),
            ),
        };
        ShellExit { free_item_list: true, uninitialize: self.owns_initialization, outcome }
    }
}

} // verus!
