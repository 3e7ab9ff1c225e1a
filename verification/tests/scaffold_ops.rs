use cinit::args::Commands;
use cinit::dispatch::{dispatch, Action};
use cinit::scaffold::{c_new, create_file, create_lib_folder, create_sub_directory, FsOp};
use cinit::templates::{
    content_for, default_template, main_c_template, makefile_template, readme_template,
};

const MAIN_C: &str =
    "#include <stdio.h>\n\nint main() {\n    printf(\"Hello, world!\\n\");\n    return 0;\n}\n";
const MAKEFILE: &str = "CC = gcc\nCFLAGS = -Wall\n\nmain:\n\t$(CC) $(CFLAGS) -o main ./src/main.c\n";
const PLACEHOLDER: &str = "// Default content\n";

fn readme_for(name: &str) -> String {
    format!(
        "# {}\n\nA simple C project generated with cinit.\n\n## Structure\n\n- `main.c`: Entry point of the program.\n- `Makefile`: Build system configuration.\n- `README.md`: Project description.\n\n## Build\n\nTo build the project, run:\n\n```bash\nmake\n```\n\n## Run\n\nAfter building, run the program:\n\n```bash\n./main\n```\n",
        name
    )
}

#[test]
fn main_c_template_is_exact() {
    assert_eq!(main_c_template(), MAIN_C);
}

#[test]
fn makefile_template_is_exact() {
    assert_eq!(makefile_template(), MAKEFILE);
}

#[test]
fn default_template_is_exact() {
    assert_eq!(default_template(), PLACEHOLDER);
}

#[test]
fn readme_template_substitutes_the_name() {
    assert_eq!(readme_template("hello"), readme_for("hello"));
    assert!(readme_template("my_proj").starts_with("# my_proj\n"));
}

#[test]
fn content_is_selected_by_file_name() {
    let name = "proj".to_string();
    assert_eq!(content_for(&name, "main.c"), MAIN_C);
    assert_eq!(content_for(&name, "Makefile"), MAKEFILE);
    assert_eq!(content_for(&name, "README.md"), readme_for("proj"));
    assert_eq!(content_for(&name, "notes.txt"), PLACEHOLDER);
}

#[test]
fn sub_directory_op_builds_the_path() {
    let op = create_sub_directory(&"hello".to_string(), "src");
    assert_eq!(op, FsOp::MkDir { path: "./hello/src".to_string() });
}

#[test]
fn file_op_with_and_without_sub_directory() {
    let name = "hello".to_string();
    let op = create_file(&name, "src", "main.c");
    assert_eq!(
        op,
        FsOp::WriteFile { path: "./hello/src/main.c".to_string(), content: MAIN_C.to_string() }
    );
    let op = create_file(&name, "", "Makefile");
    assert_eq!(
        op,
        FsOp::WriteFile { path: "./hello/Makefile".to_string(), content: MAKEFILE.to_string() }
    );
}

#[test]
fn new_without_lib_plans_the_five_entries() {
    let ops = c_new(&"hello".to_string(), None);
    assert_eq!(
        ops,
        vec![
            FsOp::MkDir { path: "./hello/src".to_string() },
            FsOp::WriteFile {
                path: "./hello/src/main.c".to_string(),
                content: MAIN_C.to_string(),
            },
            FsOp::WriteFile {
                path: "./hello/README.md".to_string(),
                content: readme_for("hello"),
            },
            FsOp::WriteFile { path: "./hello/Makefile".to_string(), content: MAKEFILE.to_string() },
        ]
    );
}

#[test]
fn new_with_lib_adds_the_pair() {
    let ops = c_new(&"proj".to_string(), Some("foo".to_string()));
    assert_eq!(ops.len(), 7);
    assert_eq!(ops[0], FsOp::MkDir { path: "./proj/src".to_string() });
    assert_eq!(ops[1], FsOp::MkDir { path: "./proj/lib".to_string() });
    assert_eq!(
        ops[2],
        FsOp::WriteFile { path: "./proj/lib/foo.c".to_string(), content: PLACEHOLDER.to_string() }
    );
    assert_eq!(
        ops[3],
        FsOp::WriteFile { path: "./proj/lib/foo.h".to_string(), content: PLACEHOLDER.to_string() }
    );
    assert_eq!(
        ops[4],
        FsOp::WriteFile { path: "./proj/src/main.c".to_string(), content: MAIN_C.to_string() }
    );
}

#[test]
fn lib_folder_plan_has_dir_then_pair() {
    let ops = create_lib_folder(&"proj".to_string(), "util");
    assert_eq!(
        ops,
        vec![
            FsOp::MkDir { path: "./proj/lib".to_string() },
            FsOp::WriteFile {
                path: "./proj/lib/util.c".to_string(),
                content: PLACEHOLDER.to_string(),
            },
            FsOp::WriteFile {
                path: "./proj/lib/util.h".to_string(),
                content: PLACEHOLDER.to_string(),
            },
        ]
    );
}

#[test]
fn lib_base_main_gets_the_main_template() {
    let ops = create_lib_folder(&"proj".to_string(), "main");
    assert_eq!(
        ops[1],
        FsOp::WriteFile { path: "./proj/lib/main.c".to_string(), content: MAIN_C.to_string() }
    );
    assert_eq!(
        ops[2],
        FsOp::WriteFile { path: "./proj/lib/main.h".to_string(), content: PLACEHOLDER.to_string() }
    );
}

#[test]
fn plan_paths_are_pairwise_distinct() {
    // The conflicts a second run provokes are with the first run's files,
    // never within one plan: every operation touches its own path.
    let ops = c_new(&"proj".to_string(), Some("util".to_string()));
    let paths: Vec<&String> = ops
        .iter()
        .map(|op| match op {
            FsOp::MkDir { path } => path,
            FsOp::WriteFile { path, .. } => path,
        })
        .collect();
    for i in 0..paths.len() {
        for j in 0..paths.len() {
            if i != j {
                assert_ne!(paths[i], paths[j]);
            }
        }
    }
}

#[test]
fn dispatch_new_carries_the_plan() {
    let a = dispatch(Commands::New { project_name: "hello".to_string(), lib: None });
    match a {
        Action::Scaffold { ops } => assert_eq!(ops, c_new(&"hello".to_string(), None)),
        other => panic!("unexpected action: {:?}", other),
    }
}

#[test]
fn dispatch_build_runs_the_build() {
    assert!(matches!(dispatch(Commands::Build), Action::RunBuild));
}

#[test]
fn dispatch_build_run_only_diagnoses() {
    match dispatch(Commands::BuildRun) {
        Action::Diagnostic { message } => {
            assert_eq!(message, "build-run is not yet implemented");
        }
        other => panic!("unexpected action: {:?}", other),
    }
}
