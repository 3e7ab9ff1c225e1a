//! The fixed file bodies that a scaffolded project is filled with, each
//! rendered exactly as the spec function beside it states it.

use vstd::prelude::*;

use crate::text::str_eq;

verus! {

/// The body of the generated `src/main.c`: a minimal hello-world program.
pub open spec fn main_c_text() -> Seq<char> {
    "#include <stdio.h>\n\nint main() {\n    printf(\"Hello, world!\\n\");\n    return 0;\n}\n"@
}

/// The body of the generated `Makefile`: a fixed two-variable build rule.
pub open spec fn makefile_text() -> Seq<char> {
    "CC = gcc\nCFLAGS = -Wall\n\nmain:\n\t$(CC) $(CFLAGS) -o main ./src/main.c\n"@
}

/// The body of any generated file with no template of its own.
pub open spec fn default_text() -> Seq<char> {
    "// Default content\n"@
}

/// The body of the generated `README.md`, with the project name substituted
/// verbatim into the heading.
pub open spec fn readme_text(name: Seq<char>) -> Seq<char> {
    "# "@ + name
        + "\n\nA simple C project generated with cinit.\n\n## Structure\n\n- `main.c`: Entry point of the program.\n- `Makefile`: Build system configuration.\n- `README.md`: Project description.\n\n## Build\n\nTo build the project, run:\n\n```bash\nmake\n```\n\n## Run\n\nAfter building, run the program:\n\n```bash\n./main\n```\n"@
}

pub fn main_c_template() -> (r: String)
    ensures
        r@ == main_c_text(),
{
    String::from_str(
        "#include <stdio.h>\n\nint main() {\n    printf(\"Hello, world!\\n\");\n    return 0;\n}\n",
    )
}

pub fn makefile_template() -> (r: String)
    ensures
        r@ == makefile_text(),
{
    String::from_str("CC = gcc\nCFLAGS = -Wall\n\nmain:\n\t$(CC) $(CFLAGS) -o main ./src/main.c\n")
}

pub fn default_template() -> (r: String)
    ensures
        r@ == default_text(),
{
    String::from_str("// Default content\n")
}

pub fn readme_template(name: &str) -> (r: String)
    ensures
        r@ == readme_text(name@),
{
    let mut s = String::from_str("# ");
    s.append(name);
    s.append(
        "\n\nA simple C project generated with cinit.\n\n## Structure\n\n- `main.c`: Entry point of the program.\n- `Makefile`: Build system configuration.\n- `README.md`: Project description.\n\n## Build\n\nTo build the project, run:\n\n```bash\nmake\n```\n\n## Run\n\nAfter building, run the program:\n\n```bash\n./main\n```\n",
    );
    proof {
        assert(s@ =~= readme_text(name@));
    }
    s
}

/// The body a generated file receives, selected by its file name: the three
/// named templates, and the placeholder for anything else.
pub open spec fn content_text(project_name: Seq<char>, file_name: Seq<char>) -> Seq<char> {
    if file_name == "main.c"@ {
        main_c_text()
    } else if file_name == "Makefile"@ {
        makefile_text()
    } else if file_name == "README.md"@ {
        readme_text(project_name)
    } else {
        default_text()
    }
}

/// Render the body for the file named `file_name` of the project.
pub fn content_for(project_name: &String, file_name: &str) -> (r: String)
    ensures
        r@ == content_text(project_name@, file_name@),
{
    if str_eq(file_name, "main.c") {
        main_c_template()
    } else if str_eq(file_name, "Makefile") {
        makefile_template()
    } else if str_eq(file_name, "README.md") {
        readme_template(project_name.as_str())
    } else {
        default_template()
    }
}

} // verus!
