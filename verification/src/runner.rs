//! The build runner's decisions: what to run, and what each outcome of the
//! compile-and-relocate sequence means.
//!
//! The shell around the library performs the three effects in order — run
//! the compiler, create `bin/`, move the binary — and after each one hands
//! the result back as a plain value.  Each decision function below says what
//! follows that result; `c_build` states the outcome of the whole sequence.
//! Directory creation is idempotent here as everywhere: an existing `bin/`
//! is not a failure, and a real failure is propagated.

use vstd::prelude::*;

use crate::errors::ErrorKind;
use crate::scaffold::{FsOp, FsOpModel};

verus! {

/// What running the compiler produced.
#[derive(Debug, Clone, Copy, PartialEq, Eq, Structural)]
pub enum CompilerResult {
    /// The compiler process could not be started at all.
    LaunchFailed,
    /// The compiler ran and exited; `success` is whether its status was zero.
    Exited { success: bool },
}

/// The arguments of the fixed compile command.
pub open spec fn compile_args_text() -> Seq<Seq<char>> {
    seq!["src/main.c"@, "-Wall"@, "-o"@, "main"@]
}

/// The fixed compile command: the compiler name and its arguments.
pub fn compile_command() -> (r: (String, Vec<String>))
    ensures
        r.0@ == "gcc"@,
        r.1.deep_view() == compile_args_text(),
{
    let mut args: Vec<String> = Vec::new();
    args.push(String::from_str("src/main.c"));
    args.push(String::from_str("-Wall"));
    args.push(String::from_str("-o"));
    args.push(String::from_str("main"));
    proof {
        assert(args.deep_view() =~= compile_args_text());
    }
    (String::from_str("gcc"), args)
}

/// The path of the directory the binary is moved into.
pub open spec fn bin_dir_text() -> Seq<char> {
    "./bin"@
}

/// Where the compiler leaves the binary.
pub open spec fn binary_source_text() -> Seq<char> {
    "main"@
}

/// Where the binary is moved to.
pub open spec fn binary_dest_text() -> Seq<char> {
    "./bin/main"@
}

/// Moving one file: the relocation of the compiled binary.
#[derive(Debug, Clone, PartialEq, Eq)]
pub struct MoveOp {
    pub from: String,
    pub to: String,
}

/// What follows the compiler's result: on success, the operation that
/// creates `bin/`; otherwise the error to report.  No relocation is ever
/// issued for a failed compile.
pub fn after_compile(compile: &CompilerResult) -> (next: Result<FsOp, ErrorKind>)
    ensures
        (*compile) is LaunchFailed ==> (next matches Err(e) && e == ErrorKind::CompilerLaunchFailed),
        ((*compile) matches CompilerResult::Exited { success } && !success) ==> (next matches Err(e)
            && e == ErrorKind::CompileFailed),
        ((*compile) matches CompilerResult::Exited { success } && success) ==> (next matches Ok(op)
            && op@ == (FsOpModel::MkDir { path: bin_dir_text() })),
{
    match compile {
        CompilerResult::LaunchFailed => Err(ErrorKind::CompilerLaunchFailed),
        CompilerResult::Exited { success } => {
            if *success {
                Ok(FsOp::MkDir { path: String::from_str("./bin") })
            } else {
                Err(ErrorKind::CompileFailed)
            }
        },
    }
}

/// What follows the creation of `bin/`: on success, the move that relocates
/// the binary; otherwise the error to report.
pub fn after_bin_dir(created: bool) -> (next: Result<MoveOp, ErrorKind>)
    ensures
        created ==> (next matches Ok(m) && m.from@ == binary_source_text() && m.to@
            == binary_dest_text()),
        !created ==> (next matches Err(e) && e == ErrorKind::DirectoryCreateFailed),
{
    if created {
        Ok(MoveOp { from: String::from_str("main"), to: String::from_str("./bin/main") })
    } else {
        Err(ErrorKind::DirectoryCreateFailed)
    }
}

/// What follows the move of the binary: success, or the error to report.
/// When the move failed, the binary stays where the compiler left it.
pub fn after_move(moved: bool) -> (r: Result<(), ErrorKind>)
    ensures
        moved ==> r is Ok,
        !moved ==> (r matches Err(e) && e == ErrorKind::BinaryMoveFailed),
{
    if moved {
        Ok(())
    } else {
        Err(ErrorKind::BinaryMoveFailed)
    }
}

/// The outcome of a whole build, from what each step (as far as it was
/// reached) produced.  The flags for steps after the first failure are
/// irrelevant: the outcome does not depend on them.
pub open spec fn c_build_spec(
    compile: CompilerResult,
    bin_dir_created: bool,
    binary_moved: bool,
) -> Result<(), ErrorKind> {
    match compile {
        CompilerResult::LaunchFailed => Err(ErrorKind::CompilerLaunchFailed),
        CompilerResult::Exited { success } => if !success {
            Err(ErrorKind::CompileFailed)
        } else if !bin_dir_created {
            Err(ErrorKind::DirectoryCreateFailed)
        } else if !binary_moved {
            Err(ErrorKind::BinaryMoveFailed)
        } else {
            Ok(())
        },
    }
}

/// The outcome of a build in which the compiler produced `compile`, the
/// creation of `bin/` produced `bin_dir_created` (if reached) and the move
/// of the binary produced `binary_moved` (if reached).
pub fn c_build(compile: &CompilerResult, bin_dir_created: bool, binary_moved: bool) -> (r: Result<
    (),
    ErrorKind,
>)
    ensures
        r == c_build_spec(*compile, bin_dir_created, binary_moved),
{
    let r: Result<(), ErrorKind> = match after_compile(compile) {
        Err(e) => Err(e),
        Ok(_) => match after_bin_dir(bin_dir_created) {
            Err(e) => Err(e),
            Ok(_) => after_move(binary_moved),
        },
    };
    proof {
        let s = c_build_spec(*compile, bin_dir_created, binary_moved);
        match r {
            Ok(u) => {
                assert(s is Ok);
                assert(r == s);
            },
            Err(e) => {
                assert(s == Err::<(), ErrorKind>(e));
                assert(r == s);
            },
        }
    }
    r
}

/// A build whose compiler did not succeed reports `CompilerLaunchFailed` or
/// `CompileFailed` — the two apart, so "compiler not found" can be told from
/// "code has errors" — and never reaches the relocation: `bin/main` is not
/// created, whatever the later flags say.
pub proof fn lemma_failed_compile_reported(
    compile: CompilerResult,
    bin_dir_created: bool,
    binary_moved: bool,
)
    requires
        !(compile matches CompilerResult::Exited { success } && success),
    ensures
        c_build_spec(compile, bin_dir_created, binary_moved) == (Err::<(), ErrorKind>(
            if compile is LaunchFailed {
                ErrorKind::CompilerLaunchFailed
            } else {
                ErrorKind::CompileFailed
            },
        )),
{
}

/// A build succeeds exactly when the compiler ran and exited with status
/// zero, `bin/` was in place, and the binary was moved; each failure is
/// reported as its own kind.
pub proof fn lemma_build_outcome(
    compile: CompilerResult,
    bin_dir_created: bool,
    binary_moved: bool,
)
    ensures
        c_build_spec(compile, bin_dir_created, binary_moved) is Ok <==> (compile
            == (CompilerResult::Exited { success: true }) && bin_dir_created && binary_moved),
        c_build_spec(compile, bin_dir_created, binary_moved) == (Err::<(), ErrorKind>(
            ErrorKind::BinaryMoveFailed,
        )) <==> (compile == (CompilerResult::Exited { success: true }) && bin_dir_created
            && !binary_moved),
{
}

} // verus!
