use cinit::args::{parse_args, usage, Cinit, Commands, ParseError};

fn argv(parts: &[&str]) -> Vec<String> {
    parts.iter().map(|s| s.to_string()).collect()
}

#[test]
fn parse_new_with_name() {
    let r = parse_args(&argv(&["new", "hello"]));
    match r {
        Ok(Commands::New { project_name, lib }) => {
            assert_eq!(project_name, "hello");
            assert!(lib.is_none());
        }
        other => panic!("unexpected parse: {:?}", other),
    }
}

#[test]
fn parse_new_with_lib() {
    let r = parse_args(&argv(&["new", "proj", "--lib", "foo"]));
    match r {
        Ok(Commands::New { project_name, lib }) => {
            assert_eq!(project_name, "proj");
            assert_eq!(lib, Some("foo".to_string()));
        }
        other => panic!("unexpected parse: {:?}", other),
    }
}

#[test]
fn parse_build() {
    assert!(matches!(parse_args(&argv(&["build"])), Ok(Commands::Build)));
}

#[test]
fn parse_build_run() {
    assert!(matches!(parse_args(&argv(&["build-run"])), Ok(Commands::BuildRun)));
}

#[test]
fn parse_missing_command() {
    assert_eq!(parse_args(&argv(&[])), Err(ParseError::MissingCommand));
}

#[test]
fn parse_unknown_command() {
    assert_eq!(parse_args(&argv(&["install"])), Err(ParseError::UnknownCommand));
}

#[test]
fn parse_missing_project_name() {
    assert_eq!(parse_args(&argv(&["new"])), Err(ParseError::MissingProjectName));
}

#[test]
fn parse_missing_lib_value() {
    assert_eq!(parse_args(&argv(&["new", "proj", "--lib"])), Err(ParseError::MissingLibValue));
}

#[test]
fn parse_unexpected_argument_after_build() {
    assert_eq!(parse_args(&argv(&["build", "now"])), Err(ParseError::UnexpectedArgument));
}

#[test]
fn parse_unexpected_argument_after_lib() {
    assert_eq!(
        parse_args(&argv(&["new", "proj", "--lib", "foo", "bar"])),
        Err(ParseError::UnexpectedArgument)
    );
}

#[test]
fn parse_unexpected_flag_in_new() {
    assert_eq!(
        parse_args(&argv(&["new", "proj", "--release"])),
        Err(ParseError::UnexpectedArgument)
    );
}

#[test]
fn cinit_new_holds_the_parse() {
    let c = Cinit::new(&argv(&["build"]));
    assert!(matches!(c.0, Ok(Commands::Build)));
    let c = Cinit::new(&argv(&["nonsense"]));
    assert!(matches!(c.0, Err(ParseError::UnknownCommand)));
}

#[test]
fn usage_text_names_the_commands() {
    let u = usage();
    assert_eq!(
        u,
        "Usage:\n  cinit new <project_name> [--lib <file_base>]\n  cinit build\n  cinit build-run\n"
    );
}

#[test]
fn parse_error_kinds_are_distinct() {
    assert_ne!(ParseError::MissingCommand, ParseError::UnknownCommand);
    assert_ne!(ParseError::MissingProjectName, ParseError::MissingLibValue);
    assert_ne!(ParseError::UnexpectedArgument, ParseError::MissingCommand);
}
