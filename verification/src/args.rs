//! Parsing of the command line into a typed command.
//!
//! The parser is a pure function from the argument list (the arguments after
//! the program name) to a command value or a structured parse error; the
//! shell around the library prints the usage text and exits non-zero when a
//! parse error comes back.

use vstd::prelude::*;

use crate::text::str_eq;

verus! {

/// A parsed subcommand.
#[derive(Debug, Clone, PartialEq, Eq)]
pub enum Commands {
    /// `new <project_name> [--lib <file_base>]`: scaffold a new project.
    New { project_name: String, lib: Option<String> },
    /// `build`: compile `src/main.c` and move the binary into `bin/`.
    Build,
    /// `build-run`: reserved; emits a diagnostic and takes no action.
    BuildRun,
}

/// The mathematical shape of a parsed subcommand.
pub enum CmdModel {
    New { project_name: Seq<char>, lib: Option<Seq<char>> },
    Build,
    BuildRun,
}

impl View for Commands {
    type V = CmdModel;

    open spec fn view(&self) -> CmdModel {
        match self {
            Commands::New { project_name, lib } => CmdModel::New {
                project_name: project_name@,
                lib: match lib {
                    Some(l) => Some(l@),
                    None => None,
                },
            },
            Commands::Build => CmdModel::Build,
            Commands::BuildRun => CmdModel::BuildRun,
        }
    }
}

/// Why an argument list failed to parse.
#[derive(Debug, Clone, Copy, PartialEq, Eq, Structural)]
pub enum ParseError {
    /// No subcommand was given.
    MissingCommand,
    /// The first argument is none of `new`, `build`, `build-run`.
    UnknownCommand,
    /// `new` was given without a project name.
    MissingProjectName,
    /// `--lib` was given without a file base name after it.
    MissingLibValue,
    /// More arguments followed than the subcommand takes.
    UnexpectedArgument,
}

/// What `parse_args` returns for each argument list, exactly.
pub open spec fn parse_spec(args: Seq<Seq<char>>) -> Result<CmdModel, ParseError> {
    if args.len() == 0 {
        Err(ParseError::MissingCommand)
    } else if args[0] == "new"@ {
        if args.len() == 1 {
            Err(ParseError::MissingProjectName)
        } else if args.len() == 2 {
            Ok(CmdModel::New { project_name: args[1], lib: None })
        } else if args[2] == "--lib"@ {
            if args.len() == 3 {
                Err(ParseError::MissingLibValue)
            } else if args.len() == 4 {
                Ok(CmdModel::New { project_name: args[1], lib: Some(args[3]) })
            } else {
                Err(ParseError::UnexpectedArgument)
            }
        } else {
            Err(ParseError::UnexpectedArgument)
        }
    } else if args[0] == "build"@ {
        if args.len() == 1 {
            Ok(CmdModel::Build)
        } else {
            Err(ParseError::UnexpectedArgument)
        }
    } else if args[0] == "build-run"@ {
        if args.len() == 1 {
            Ok(CmdModel::BuildRun)
        } else {
            Err(ParseError::UnexpectedArgument)
        }
    } else {
        Err(ParseError::UnknownCommand)
    }
}

/// The model of a parse result: the command's model on success, the error
/// itself on failure.
pub open spec fn parse_result_view(r: Result<Commands, ParseError>) -> Result<
    CmdModel,
    ParseError,
> {
    match r {
        Ok(c) => Ok(c@),
        Err(e) => Err(e),
    }
}

/// Parse the argument list (without the program name) into a command.
pub fn parse_args(args: &Vec<String>) -> (r: Result<Commands, ParseError>)
    ensures
        parse_result_view(r) == parse_spec(args.deep_view()),
{
    if args.len() == 0 {
        Err(ParseError::MissingCommand)
    } else if str_eq(args[0].as_str(), "new") {
        if args.len() == 1 {
            Err(ParseError::MissingProjectName)
        } else if args.len() == 2 {
            Ok(Commands::New { project_name: args[1].clone(), lib: None })
        } else if str_eq(args[2].as_str(), "--lib") {
            if args.len() == 3 {
                Err(ParseError::MissingLibValue)
            } else if args.len() == 4 {
                Ok(Commands::New { project_name: args[1].clone(), lib: Some(args[3].clone()) })
            } else {
                Err(ParseError::UnexpectedArgument)
            }
        } else {
            Err(ParseError::UnexpectedArgument)
        }
    } else if str_eq(args[0].as_str(), "build") {
        if args.len() == 1 {
            Ok(Commands::Build)
        } else {
            Err(ParseError::UnexpectedArgument)
        }
    } else if str_eq(args[0].as_str(), "build-run") {
        if args.len() == 1 {
            Ok(Commands::BuildRun)
        } else {
            Err(ParseError::UnexpectedArgument)
        }
    } else {
        Err(ParseError::UnknownCommand)
    }
}

/// The usage text printed when the argument list does not parse.
pub open spec fn usage_text() -> Seq<char> {
    "Usage:\n  cinit new <project_name> [--lib <file_base>]\n  cinit build\n  cinit build-run\n"@
}

pub fn usage() -> (r: String)
    ensures
        r@ == usage_text(),
{
    String::from_str(
        "Usage:\n  cinit new <project_name> [--lib <file_base>]\n  cinit build\n  cinit build-run\n",
    )
}

/// The parsed command line, as the tool holds it.
#[derive(Debug)]
pub struct Cinit(pub Result<Commands, ParseError>);

impl Cinit {
    /// Parse the argument list into the tool's state.
    pub fn new(args: &Vec<String>) -> (r: Self)
        ensures
            parse_result_view(r.0) == parse_spec(args.deep_view()),
    {
        Cinit(parse_args(args))
    }
}

} // verus!
