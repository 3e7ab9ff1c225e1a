//! The kinds of failure the tool reports.

use vstd::prelude::*;

verus! {

/// Every failure the scaffold generator or the build runner can report.
#[derive(Debug, Clone, Copy, PartialEq, Eq, Structural)]
pub enum ErrorKind {
    /// A directory could not be created.
    DirectoryCreateFailed,
    /// A file to be generated already exists or could not be created.
    FileCreateFailed,
    /// A generated file could not be filled with its body.
    FileWriteFailed,
    /// The compiler process could not be started.
    CompilerLaunchFailed,
    /// The compiler ran and exited with a non-zero status.
    CompileFailed,
    /// The compiled binary could not be moved into `bin/`.
    BinaryMoveFailed,
}

/// The description each error kind is reported with.
pub open spec fn error_text(e: ErrorKind) -> Seq<char> {
    match e {
        ErrorKind::DirectoryCreateFailed => "failed to create directory"@,
        ErrorKind::FileCreateFailed => "failed to create file"@,
        ErrorKind::FileWriteFailed => "failed to write file"@,
        ErrorKind::CompilerLaunchFailed => "failed to execute the compiler"@,
        ErrorKind::CompileFailed => "compilation failed"@,
        ErrorKind::BinaryMoveFailed => "failed to move binary to ./bin"@,
    }
}

impl ErrorKind {
    /// The description of this error kind, for reporting.
    pub fn message(&self) -> (r: String)
        ensures
            r@ == error_text(*self),
    {
        match self {
            ErrorKind::DirectoryCreateFailed => String::from_str("failed to create directory"),
            ErrorKind::FileCreateFailed => String::from_str("failed to create file"),
            ErrorKind::FileWriteFailed => String::from_str("failed to write file"),
            ErrorKind::CompilerLaunchFailed => String::from_str("failed to execute the compiler"),
            ErrorKind::CompileFailed => String::from_str("compilation failed"),
            ErrorKind::BinaryMoveFailed => String::from_str("failed to move binary to ./bin"),
        }
    }
}

} // verus!
