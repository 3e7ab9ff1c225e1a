//! The dispatcher: what action each parsed command triggers.

use vstd::prelude::*;

use crate::args::{CmdModel, Commands};
use crate::errors::ErrorKind;
use crate::scaffold::{apply_ops, c_new, scaffold_plan, FsModel, FsOp, FsOpModel};

verus! {

/// The action a command triggers.
#[derive(Debug)]
pub enum Action {
    /// Execute these filesystem operations, in order.
    Scaffold { ops: Vec<FsOp> },
    /// Run the compile-and-relocate sequence.
    RunBuild,
    /// Print this message and do nothing else.
    Diagnostic { message: String },
}

/// The mathematical shape of an action.
pub enum ActionModel {
    Scaffold { ops: Seq<FsOpModel> },
    RunBuild,
    Diagnostic { message: Seq<char> },
}

impl View for Action {
    type V = ActionModel;

    open spec fn view(&self) -> ActionModel {
        match self {
            Action::Scaffold { ops } => ActionModel::Scaffold { ops: ops.deep_view() },
            Action::RunBuild => ActionModel::RunBuild,
            Action::Diagnostic { message } => ActionModel::Diagnostic { message: message@ },
        }
    }
}

/// The diagnostic the reserved `build-run` command emits.
pub open spec fn not_implemented_text() -> Seq<char> {
    "build-run is not yet implemented"@
}

/// The action each command triggers, exactly.
pub open spec fn dispatch_spec(cmd: CmdModel) -> ActionModel {
    match cmd {
        CmdModel::New { project_name, lib } => ActionModel::Scaffold {
            ops: scaffold_plan(project_name, lib),
        },
        CmdModel::Build => ActionModel::RunBuild,
        CmdModel::BuildRun => ActionModel::Diagnostic { message: not_implemented_text() },
    }
}

/// Map a parsed command to the action it triggers.
pub fn dispatch(cmd: Commands) -> (a: Action)
    ensures
        a@ == dispatch_spec(cmd@),
{
    match cmd {
        Commands::New { project_name, lib } => Action::Scaffold {
            ops: c_new(&project_name, lib),
        },
        Commands::Build => Action::RunBuild,
        Commands::BuildRun => Action::Diagnostic {
            message: String::from_str("build-run is not yet implemented"),
        },
    }
}

/// The filesystem operations an action carries: a scaffold's plan; none for
/// a build (whose effects go through the build runner's own steps) and none
/// for a diagnostic.
pub open spec fn action_fs_ops(a: ActionModel) -> Seq<FsOpModel> {
    match a {
        ActionModel::Scaffold { ops } => ops,
        ActionModel::RunBuild => Seq::<FsOpModel>::empty(),
        ActionModel::Diagnostic { message } => Seq::<FsOpModel>::empty(),
    }
}

/// `build-run` only emits its diagnostic: it carries no filesystem
/// operation, and executing it leaves every filesystem exactly as it was.
pub proof fn lemma_build_run_touches_no_file(fs: FsModel)
    ensures
        dispatch_spec(CmdModel::BuildRun) matches ActionModel::Diagnostic { message },
        action_fs_ops(dispatch_spec(CmdModel::BuildRun)) == Seq::<FsOpModel>::empty(),
        apply_ops(fs, action_fs_ops(dispatch_spec(CmdModel::BuildRun))) == Ok::<
            FsModel,
            ErrorKind,
        >(fs),
{
}

} // verus!
