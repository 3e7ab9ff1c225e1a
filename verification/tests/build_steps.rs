use cinit::errors::ErrorKind;
use cinit::runner::{
    after_bin_dir, after_compile, after_move, c_build, compile_command, CompilerResult, MoveOp,
};
use cinit::scaffold::FsOp;

#[test]
fn compile_command_is_fixed() {
    let (program, args) = compile_command();
    assert_eq!(program, "gcc");
    assert_eq!(args, vec!["src/main.c", "-Wall", "-o", "main"]);
}

#[test]
fn after_compile_success_creates_bin() {
    let next = after_compile(&CompilerResult::Exited { success: true });
    assert_eq!(next, Ok(FsOp::MkDir { path: "./bin".to_string() }));
}

#[test]
fn after_compile_failure_reports_and_stops() {
    assert_eq!(
        after_compile(&CompilerResult::Exited { success: false }),
        Err(ErrorKind::CompileFailed)
    );
    assert_eq!(after_compile(&CompilerResult::LaunchFailed), Err(ErrorKind::CompilerLaunchFailed));
}

#[test]
fn after_bin_dir_moves_the_binary() {
    assert_eq!(
        after_bin_dir(true),
        Ok(MoveOp { from: "main".to_string(), to: "./bin/main".to_string() })
    );
    assert_eq!(after_bin_dir(false), Err(ErrorKind::DirectoryCreateFailed));
}

#[test]
fn after_move_reports_the_move() {
    assert_eq!(after_move(true), Ok(()));
    assert_eq!(after_move(false), Err(ErrorKind::BinaryMoveFailed));
}

#[test]
fn build_succeeds_only_when_every_step_did() {
    assert_eq!(c_build(&CompilerResult::Exited { success: true }, true, true), Ok(()));
}

#[test]
fn build_without_main_c_reports_compile_failed() {
    // A compiler run on a missing src/main.c exits non-zero; no bin/main step
    // is reached, whatever the later flags claim.
    assert_eq!(
        c_build(&CompilerResult::Exited { success: false }, true, true),
        Err(ErrorKind::CompileFailed)
    );
}

#[test]
fn build_without_compiler_reports_launch_failed() {
    assert_eq!(c_build(&CompilerResult::LaunchFailed, true, true), Err(ErrorKind::CompilerLaunchFailed));
}

#[test]
fn build_reports_bin_dir_failure() {
    assert_eq!(
        c_build(&CompilerResult::Exited { success: true }, false, true),
        Err(ErrorKind::DirectoryCreateFailed)
    );
}

#[test]
fn build_reports_move_failure() {
    // An unwritable destination fails the relocation alone; the compile
    // itself stands, so the kind singles out the move.
    assert_eq!(
        c_build(&CompilerResult::Exited { success: true }, true, false),
        Err(ErrorKind::BinaryMoveFailed)
    );
}

#[test]
fn error_messages_name_the_failure() {
    assert_eq!(ErrorKind::DirectoryCreateFailed.message(), "failed to create directory");
    assert_eq!(ErrorKind::FileCreateFailed.message(), "failed to create file");
    assert_eq!(ErrorKind::FileWriteFailed.message(), "failed to write file");
    assert_eq!(ErrorKind::CompilerLaunchFailed.message(), "failed to execute the compiler");
    assert_eq!(ErrorKind::CompileFailed.message(), "compilation failed");
    assert_eq!(ErrorKind::BinaryMoveFailed.message(), "failed to move binary to ./bin");
}
