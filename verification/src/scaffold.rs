//! The scaffold generator: the ordered filesystem operations that lay out a
//! new project, and a filesystem model that gives them their meaning.
//!
//! The generator itself performs no I/O.  It produces a plan, a sequence of
//! [`FsOp`] values; the shell around the library executes them in order, with
//! create-with-parents, idempotent semantics for directories and
//! create-new (never overwrite) semantics for files, and stops at the first
//! failure.  The model below mirrors exactly those semantics, so what a plan
//! does to a filesystem is stated and proved here.

use vstd::prelude::*;

use crate::errors::ErrorKind;
use crate::templates::{
    content_for, content_text, default_text, main_c_text, makefile_text, readme_text,
};

verus! {

/// One filesystem operation of a scaffold plan.
#[derive(Debug, Clone, PartialEq, Eq)]
pub enum FsOp {
    /// Create the directory and all missing parents; an existing directory is
    /// not an error.
    MkDir { path: String },
    /// Create the file anew (an existing file is an error) and fill it with
    /// the given body.
    WriteFile { path: String, content: String },
}

/// The mathematical shape of one filesystem operation.
pub enum FsOpModel {
    MkDir { path: Seq<char> },
    WriteFile { path: Seq<char>, content: Seq<char> },
}

impl View for FsOp {
    type V = FsOpModel;

    open spec fn view(&self) -> FsOpModel {
        match self {
            FsOp::MkDir { path } => FsOpModel::MkDir { path: path@ },
            FsOp::WriteFile { path, content } => FsOpModel::WriteFile {
                path: path@,
                content: content@,
            },
        }
    }
}

impl DeepView for FsOp {
    type V = FsOpModel;

    open spec fn deep_view(&self) -> FsOpModel {
        self.view()
    }
}

/// The path of a subdirectory of the project: `./<name>/<sub_dir>`.
pub open spec fn dir_path(project_name: Seq<char>, sub_dir: Seq<char>) -> Seq<char> {
    "./"@ + project_name + "/"@ + sub_dir
}

/// The path of a generated file: `./<name>/<file>`, or
/// `./<name>/<sub_dir>/<file>` when a subdirectory is given.
pub open spec fn file_path(
    project_name: Seq<char>,
    sub_dir: Seq<char>,
    file_name: Seq<char>,
) -> Seq<char> {
    if sub_dir.len() == 0 {
        "./"@ + project_name + "/"@ + file_name
    } else {
        "./"@ + project_name + "/"@ + sub_dir + "/"@ + file_name
    }
}

/// The operation that creates a subdirectory of the project.
pub fn create_sub_directory(project_name: &String, sub_dir: &str) -> (op: FsOp)
    ensures
        op@ == (FsOpModel::MkDir { path: dir_path(project_name@, sub_dir@) }),
{
    let mut p = String::from_str("./");
    p.append(project_name.as_str());
    p.append("/");
    p.append(sub_dir);
    proof {
        assert(p@ =~= dir_path(project_name@, sub_dir@));
    }
    FsOp::MkDir { path: p }
}

/// The operation that creates one generated file, with the body its name
/// selects.
pub fn create_file(project_name: &String, sub_dir: &str, name: &str) -> (op: FsOp)
    ensures
        op@ == (FsOpModel::WriteFile {
            path: file_path(project_name@, sub_dir@, name@),
            content: content_text(project_name@, name@),
        }),
{
    let mut p = String::from_str("./");
    p.append(project_name.as_str());
    p.append("/");
    if !sub_dir.is_empty() {
        p.append(sub_dir);
        p.append("/");
    }
    p.append(name);
    proof {
        assert(p@ =~= file_path(project_name@, sub_dir@, name@));
    }
    let content = content_for(project_name, name);
    FsOp::WriteFile { path: p, content }
}

/// The operations that create the `lib/` subdirectory and its two files.
pub open spec fn lib_plan(project_name: Seq<char>, file_base: Seq<char>) -> Seq<FsOpModel> {
    seq![
        FsOpModel::MkDir { path: dir_path(project_name, "lib"@) },
        FsOpModel::WriteFile {
            path: file_path(project_name, "lib"@, file_base + ".c"@),
            content: content_text(project_name, file_base + ".c"@),
        },
        FsOpModel::WriteFile {
            path: file_path(project_name, "lib"@, file_base + ".h"@),
            content: content_text(project_name, file_base + ".h"@),
        },
    ]
}

/// The operations that scaffold a whole project: the `src/` directory, the
/// optional library pair, then `src/main.c`, `README.md` and `Makefile`.
pub open spec fn scaffold_plan(project_name: Seq<char>, lib: Option<Seq<char>>) -> Seq<
    FsOpModel,
> {
    seq![FsOpModel::MkDir { path: dir_path(project_name, "src"@) }] + (match lib {
        Some(file_base) => lib_plan(project_name, file_base),
        None => Seq::<FsOpModel>::empty(),
    }) + seq![
        FsOpModel::WriteFile {
            path: file_path(project_name, "src"@, "main.c"@),
            content: main_c_text(),
        },
        FsOpModel::WriteFile {
            path: file_path(project_name, Seq::<char>::empty(), "README.md"@),
            content: readme_text(project_name),
        },
        FsOpModel::WriteFile {
            path: file_path(project_name, Seq::<char>::empty(), "Makefile"@),
            content: makefile_text(),
        },
    ]
}

/// The plan for the library pair: create `lib/`, then `<base>.c` and
/// `<base>.h` inside it.
pub fn create_lib_folder(project_name: &String, file_name: &str) -> (ops: Vec<FsOp>)
    ensures
        ops.deep_view() == lib_plan(project_name@, file_name@),
{
    let mut ops: Vec<FsOp> = Vec::new();
    ops.push(create_sub_directory(project_name, "lib"));
    let mut c_name = String::from_str(file_name);
    c_name.append(".c");
    ops.push(create_file(project_name, "lib", c_name.as_str()));
    let mut h_name = String::from_str(file_name);
    h_name.append(".h");
    ops.push(create_file(project_name, "lib", h_name.as_str()));
    proof {
        assert(ops.deep_view() =~= lib_plan(project_name@, file_name@));
    }
    ops
}

/// The plan that scaffolds the project named `project_name`, with the
/// library pair when a file base name is given.
pub fn c_new(project_name: &String, lib: Option<String>) -> (ops: Vec<FsOp>)
    ensures
        ops.deep_view() == scaffold_plan(project_name@, lib.deep_view()),
{
    let ghost lib_model: Option<Seq<char>> = lib.deep_view();
    let mut ops: Vec<FsOp> = Vec::new();
    ops.push(create_sub_directory(project_name, "src"));

    if let Some(lib_file_name) = lib {
        let mut lib_ops = create_lib_folder(project_name, lib_file_name.as_str());
        ops.append(&mut lib_ops);
    }
    let ghost prefix: Seq<FsOpModel> = seq![
        FsOpModel::MkDir { path: dir_path(project_name@, "src"@) },
    ] + (match lib_model {
        Some(file_base) => lib_plan(project_name@, file_base),
        None => Seq::<FsOpModel>::empty(),
    });
    proof {
        assert(ops.deep_view() =~= prefix);
    }

    ops.push(create_file(project_name, "src", "main.c"));
    ops.push(create_file(project_name, "", "README.md"));
    ops.push(create_file(project_name, "", "Makefile"));
    proof {
        reveal_strlit("");
        reveal_strlit("main.c");
        reveal_strlit("README.md");
        reveal_strlit("Makefile");
        assert(""@ =~= Seq::<char>::empty());
        assert(ops.deep_view() =~= prefix + seq![
            FsOpModel::WriteFile {
                path: file_path(project_name@, "src"@, "main.c"@),
                content: content_text(project_name@, "main.c"@),
            },
            FsOpModel::WriteFile {
                path: file_path(project_name@, Seq::<char>::empty(), "README.md"@),
                content: content_text(project_name@, "README.md"@),
            },
            FsOpModel::WriteFile {
                path: file_path(project_name@, Seq::<char>::empty(), "Makefile"@),
                content: content_text(project_name@, "Makefile"@),
            },
        ]);
        assert(scaffold_plan(project_name@, lib_model) =~= ops.deep_view());
    }
    ops
}

/// A filesystem, as much of it as the plans touch: the set of directories
/// and the files with their contents.
pub struct FsModel {
    pub dirs: Set<Seq<char>>,
    pub files: Map<Seq<char>, Seq<char>>,
}

/// What one operation does to a filesystem.  Directory creation is
/// idempotent and (on a writable filesystem) succeeds; file creation fails
/// exactly when the path already holds a file.
pub open spec fn apply_op(fs: FsModel, op: FsOpModel) -> Result<FsModel, ErrorKind> {
    match op {
        FsOpModel::MkDir { path } => Ok(FsModel { dirs: fs.dirs.insert(path), files: fs.files }),
        FsOpModel::WriteFile { path, content } => if fs.files.contains_key(path) {
            Err(ErrorKind::FileCreateFailed)
        } else {
            Ok(FsModel { dirs: fs.dirs, files: fs.files.insert(path, content) })
        },
    }
}

/// What a plan does to a filesystem: the operations apply in order, and the
/// first failure aborts the remaining steps (no rollback of earlier ones).
pub open spec fn apply_ops(fs: FsModel, ops: Seq<FsOpModel>) -> Result<FsModel, ErrorKind>
    decreases ops.len(),
{
    if ops.len() == 0 {
        Ok(fs)
    } else {
        match apply_op(fs, ops[0]) {
            Ok(fs2) => apply_ops(fs2, ops.drop_first()),
            Err(e) => Err(e),
        }
    }
}

/// The generated file paths of one project are pairwise distinct, whatever
/// the project name and the library base name: each pair differs right after
/// the shared `./<name>/` prefix, or in its last character.
proof fn lemma_scaffold_paths_distinct(name: Seq<char>, file_base: Seq<char>)
    ensures
        file_path(name, "src"@, "main.c"@) != file_path(name, Seq::<char>::empty(), "README.md"@),
        file_path(name, "src"@, "main.c"@) != file_path(name, Seq::<char>::empty(), "Makefile"@),
        file_path(name, Seq::<char>::empty(), "README.md"@) != file_path(
            name,
            Seq::<char>::empty(),
            "Makefile"@,
        ),
        file_path(name, "lib"@, file_base + ".c"@) != file_path(name, "lib"@, file_base + ".h"@),
        file_path(name, "lib"@, file_base + ".c"@) != file_path(name, "src"@, "main.c"@),
        file_path(name, "lib"@, file_base + ".c"@) != file_path(
            name,
            Seq::<char>::empty(),
            "README.md"@,
        ),
        file_path(name, "lib"@, file_base + ".c"@) != file_path(
            name,
            Seq::<char>::empty(),
            "Makefile"@,
        ),
        file_path(name, "lib"@, file_base + ".h"@) != file_path(name, "src"@, "main.c"@),
        file_path(name, "lib"@, file_base + ".h"@) != file_path(
            name,
            Seq::<char>::empty(),
            "README.md"@,
        ),
        file_path(name, "lib"@, file_base + ".h"@) != file_path(
            name,
            Seq::<char>::empty(),
            "Makefile"@,
        ),
{
    reveal_strlit("./");
    reveal_strlit("/");
    reveal_strlit("src");
    reveal_strlit("lib");
    reveal_strlit("main.c");
    reveal_strlit("README.md");
    reveal_strlit("Makefile");
    reveal_strlit(".c");
    reveal_strlit(".h");
    let k = "./"@.len() + name.len() + "/"@.len();
    let p_main = file_path(name, "src"@, "main.c"@);
    let p_readme = file_path(name, Seq::<char>::empty(), "README.md"@);
    let p_make = file_path(name, Seq::<char>::empty(), "Makefile"@);
    let p_c = file_path(name, "lib"@, file_base + ".c"@);
    let p_h = file_path(name, "lib"@, file_base + ".h"@);
    assert(p_main[k as int] == 's');
    assert(p_readme[k as int] == 'R');
    assert(p_make[k as int] == 'M');
    assert(p_c[k as int] == 'l');
    assert(p_h[k as int] == 'l');
    assert(p_c[p_c.len() - 1] == 'c');
    assert(p_h[p_h.len() - 1] == 'h');
    assert(p_c.len() == p_h.len());
}

/// Applying a plan never removes a file: whatever held a file before holds
/// one after.
proof fn lemma_apply_ops_keeps_files(fs: FsModel, ops: Seq<FsOpModel>, p: Seq<char>)
    requires
        apply_ops(fs, ops) is Ok,
        fs.files.contains_key(p),
    ensures
        apply_ops(fs, ops)->Ok_0.files.contains_key(p),
    decreases ops.len(),
{
    if ops.len() > 0 {
        let fs2 = apply_op(fs, ops[0])->Ok_0;
        lemma_apply_ops_keeps_files(fs2, ops.drop_first(), p);
    }
}

/// A library file is named `<base>.c` or `<base>.h`, and for every base but
/// `main` that name is none of the three templated ones, so the file body is
/// the placeholder.  (For base `main`, the `.c` file is named `main.c` and
/// receives the hello-world template instead.)
proof fn lemma_lib_content_default(name: Seq<char>, file_base: Seq<char>)
    requires
        file_base != "main"@,
    ensures
        content_text(name, file_base + ".c"@) == default_text(),
        content_text(name, file_base + ".h"@) == default_text(),
{
    reveal_strlit("main");
    reveal_strlit("main.c");
    reveal_strlit("Makefile");
    reveal_strlit("README.md");
    reveal_strlit(".c");
    reveal_strlit(".h");
    if file_base + ".c"@ == "main.c"@ {
        assert((file_base + ".c"@).len() == file_base.len() + 2);
        assert(file_base.len() == 4);
        assert forall|i: int| 0 <= i < 4 implies file_base[i] == "main"@[i] by {
            assert((file_base + ".c"@)[i] == file_base[i]);
        }
        assert(file_base =~= "main"@);
    }
    if file_base + ".c"@ == "Makefile"@ {
        assert((file_base + ".c"@).len() == file_base.len() + 2);
        assert(file_base.len() == 6);
        assert((file_base + ".c"@)[7] == 'c');
        assert("Makefile"@[7] == 'e');
    }
    if file_base + ".c"@ == "README.md"@ {
        assert((file_base + ".c"@).len() == file_base.len() + 2);
        assert(file_base.len() == 7);
        assert((file_base + ".c"@)[8] == 'c');
        assert("README.md"@[8] == 'd');
    }
    if file_base + ".h"@ == "main.c"@ {
        assert((file_base + ".h"@).len() == file_base.len() + 2);
        assert(file_base.len() == 4);
        assert((file_base + ".h"@)[5] == 'h');
        assert("main.c"@[5] == 'c');
    }
    if file_base + ".h"@ == "Makefile"@ {
        assert((file_base + ".h"@).len() == file_base.len() + 2);
        assert(file_base.len() == 6);
        assert((file_base + ".h"@)[7] == 'h');
        assert("Makefile"@[7] == 'e');
    }
    if file_base + ".h"@ == "README.md"@ {
        assert((file_base + ".h"@).len() == file_base.len() + 2);
        assert(file_base.len() == 7);
        assert((file_base + ".h"@)[8] == 'h');
        assert("README.md"@[8] == 'd');
    }
}

/// Scaffolding a project whose files do not yet exist succeeds and produces
/// exactly its entries: the `src` directory (with the project root as its
/// parent), and the three files with their exact template bodies.
pub proof fn lemma_new_scaffold(fs: FsModel, name: Seq<char>)
    requires
        !fs.files.contains_key(file_path(name, "src"@, "main.c"@)),
        !fs.files.contains_key(file_path(name, Seq::<char>::empty(), "README.md"@)),
        !fs.files.contains_key(file_path(name, Seq::<char>::empty(), "Makefile"@)),
    ensures
        apply_ops(fs, scaffold_plan(name, None)) matches Ok(fs1) && fs1.dirs == fs.dirs.insert(
            dir_path(name, "src"@),
        ) && fs1.files == fs.files.insert(file_path(name, "src"@, "main.c"@), main_c_text()).insert(
            file_path(name, Seq::<char>::empty(), "README.md"@),
            readme_text(name),
        ).insert(file_path(name, Seq::<char>::empty(), "Makefile"@), makefile_text()),
{
    lemma_scaffold_paths_distinct(name, Seq::<char>::empty());
    let plan = scaffold_plan(name, None);
    let p1 = file_path(name, "src"@, "main.c"@);
    let p2 = file_path(name, Seq::<char>::empty(), "README.md"@);
    let p3 = file_path(name, Seq::<char>::empty(), "Makefile"@);
    let op0 = FsOpModel::MkDir { path: dir_path(name, "src"@) };
    let w1 = FsOpModel::WriteFile { path: p1, content: main_c_text() };
    let w2 = FsOpModel::WriteFile { path: p2, content: readme_text(name) };
    let w3 = FsOpModel::WriteFile { path: p3, content: makefile_text() };
    assert(plan =~= seq![op0, w1, w2, w3]);
    let fs0 = FsModel { dirs: fs.dirs.insert(dir_path(name, "src"@)), files: fs.files };
    let fsa = FsModel { dirs: fs0.dirs, files: fs0.files.insert(p1, main_c_text()) };
    let fsb = FsModel { dirs: fsa.dirs, files: fsa.files.insert(p2, readme_text(name)) };
    let fsc = FsModel { dirs: fsb.dirs, files: fsb.files.insert(p3, makefile_text()) };
    assert(plan.drop_first() =~= seq![w1, w2, w3]);
    assert(seq![w1, w2, w3].drop_first() =~= seq![w2, w3]);
    assert(seq![w2, w3].drop_first() =~= seq![w3]);
    assert(seq![w3].drop_first() =~= Seq::<FsOpModel>::empty());
    assert(apply_ops(fsc, Seq::<FsOpModel>::empty()) == Ok::<FsModel, ErrorKind>(fsc));
    assert(apply_ops(fsb, seq![w3]) == Ok::<FsModel, ErrorKind>(fsc));
    assert(apply_ops(fsa, seq![w2, w3]) == Ok::<FsModel, ErrorKind>(fsc));
    assert(apply_ops(fs0, seq![w1, w2, w3]) == Ok::<FsModel, ErrorKind>(fsc));
    assert(apply_ops(fs, plan) == Ok::<FsModel, ErrorKind>(fsc));
}

/// Scaffolding with a library base name additionally creates the `lib`
/// directory and the pair `lib/<base>.c`, `lib/<base>.h`, each holding the
/// placeholder body.  (A base of `main` is left out: its `.c` file is named
/// `main.c` and so receives the hello-world template, not the placeholder.)
pub proof fn lemma_new_scaffold_with_lib(fs: FsModel, name: Seq<char>, file_base: Seq<char>)
    requires
        file_base != "main"@,
        !fs.files.contains_key(file_path(name, "lib"@, file_base + ".c"@)),
        !fs.files.contains_key(file_path(name, "lib"@, file_base + ".h"@)),
        !fs.files.contains_key(file_path(name, "src"@, "main.c"@)),
        !fs.files.contains_key(file_path(name, Seq::<char>::empty(), "README.md"@)),
        !fs.files.contains_key(file_path(name, Seq::<char>::empty(), "Makefile"@)),
    ensures
        apply_ops(fs, scaffold_plan(name, Some(file_base))) matches Ok(fs1) && fs1.dirs
            == fs.dirs.insert(dir_path(name, "src"@)).insert(dir_path(name, "lib"@)) && fs1.files
            == fs.files.insert(file_path(name, "lib"@, file_base + ".c"@), default_text()).insert(
            file_path(name, "lib"@, file_base + ".h"@),
            default_text(),
        ).insert(file_path(name, "src"@, "main.c"@), main_c_text()).insert(
            file_path(name, Seq::<char>::empty(), "README.md"@),
            readme_text(name),
        ).insert(file_path(name, Seq::<char>::empty(), "Makefile"@), makefile_text()),
{
    lemma_scaffold_paths_distinct(name, file_base);
    lemma_lib_content_default(name, file_base);
    let plan = scaffold_plan(name, Some(file_base));
    let pc = file_path(name, "lib"@, file_base + ".c"@);
    let ph = file_path(name, "lib"@, file_base + ".h"@);
    let p1 = file_path(name, "src"@, "main.c"@);
    let p2 = file_path(name, Seq::<char>::empty(), "README.md"@);
    let p3 = file_path(name, Seq::<char>::empty(), "Makefile"@);
    let op0 = FsOpModel::MkDir { path: dir_path(name, "src"@) };
    let opl = FsOpModel::MkDir { path: dir_path(name, "lib"@) };
    let wc = FsOpModel::WriteFile { path: pc, content: default_text() };
    let wh = FsOpModel::WriteFile { path: ph, content: default_text() };
    let w1 = FsOpModel::WriteFile { path: p1, content: main_c_text() };
    let w2 = FsOpModel::WriteFile { path: p2, content: readme_text(name) };
    let w3 = FsOpModel::WriteFile { path: p3, content: makefile_text() };
    assert(plan =~= seq![op0, opl, wc, wh, w1, w2, w3]);
    let fs0 = FsModel { dirs: fs.dirs.insert(dir_path(name, "src"@)), files: fs.files };
    let fsl = FsModel { dirs: fs0.dirs.insert(dir_path(name, "lib"@)), files: fs0.files };
    let fsc0 = FsModel { dirs: fsl.dirs, files: fsl.files.insert(pc, default_text()) };
    let fsh = FsModel { dirs: fsc0.dirs, files: fsc0.files.insert(ph, default_text()) };
    let fsa = FsModel { dirs: fsh.dirs, files: fsh.files.insert(p1, main_c_text()) };
    let fsb = FsModel { dirs: fsa.dirs, files: fsa.files.insert(p2, readme_text(name)) };
    let fsz = FsModel { dirs: fsb.dirs, files: fsb.files.insert(p3, makefile_text()) };
    assert(plan.drop_first() =~= seq![opl, wc, wh, w1, w2, w3]);
    assert(seq![opl, wc, wh, w1, w2, w3].drop_first() =~= seq![wc, wh, w1, w2, w3]);
    assert(seq![wc, wh, w1, w2, w3].drop_first() =~= seq![wh, w1, w2, w3]);
    assert(seq![wh, w1, w2, w3].drop_first() =~= seq![w1, w2, w3]);
    assert(seq![w1, w2, w3].drop_first() =~= seq![w2, w3]);
    assert(seq![w2, w3].drop_first() =~= seq![w3]);
    assert(seq![w3].drop_first() =~= Seq::<FsOpModel>::empty());
    assert(apply_ops(fsz, Seq::<FsOpModel>::empty()) == Ok::<FsModel, ErrorKind>(fsz));
    assert(apply_ops(fsb, seq![w3]) == Ok::<FsModel, ErrorKind>(fsz));
    assert(apply_ops(fsa, seq![w2, w3]) == Ok::<FsModel, ErrorKind>(fsz));
    assert(apply_ops(fsh, seq![w1, w2, w3]) == Ok::<FsModel, ErrorKind>(fsz));
    assert(apply_ops(fsc0, seq![wh, w1, w2, w3]) == Ok::<FsModel, ErrorKind>(fsz));
    assert(apply_ops(fsl, seq![wc, wh, w1, w2, w3]) == Ok::<FsModel, ErrorKind>(fsz));
    assert(apply_ops(fs0, seq![opl, wc, wh, w1, w2, w3]) == Ok::<FsModel, ErrorKind>(fsz));
    assert(apply_ops(fs, plan) == Ok::<FsModel, ErrorKind>(fsz));
}

/// After a plan applies in full, every file it wrote is present.
proof fn lemma_apply_ops_records_write(fs: FsModel, ops: Seq<FsOpModel>, i: int)
    requires
        apply_ops(fs, ops) is Ok,
        0 <= i < ops.len(),
        ops[i] is WriteFile,
    ensures
        apply_ops(fs, ops)->Ok_0.files.contains_key(ops[i]->WriteFile_path),
    decreases ops.len(),
{
    let fs2 = apply_op(fs, ops[0])->Ok_0;
    if i == 0 {
        lemma_apply_ops_keeps_files(fs2, ops.drop_first(), ops[0]->WriteFile_path);
    } else {
        lemma_apply_ops_records_write(fs2, ops.drop_first(), i - 1);
        assert(ops.drop_first()[i - 1] == ops[i]);
    }
}

/// Directory creation is idempotent, uniformly: re-creating a directory that
/// exists changes nothing and is no error.
pub proof fn lemma_mkdir_idempotent(fs: FsModel, path: Seq<char>)
    requires
        fs.dirs.contains(path),
    ensures
        apply_op(fs, FsOpModel::MkDir { path }) matches Ok(fs2) && fs2.dirs =~= fs.dirs
            && fs2.files == fs.files,
{
    assert(fs.dirs.insert(path) =~= fs.dirs);
}

/// Scaffolding the same project a second time fails cleanly: the directory
/// creations are idempotent and pass, and the run stops at its first
/// file-creation step, which finds the file the first run wrote.
pub proof fn lemma_new_twice_fails(fs: FsModel, name: Seq<char>, lib: Option<Seq<char>>)
    requires
        apply_ops(fs, scaffold_plan(name, lib)) is Ok,
    ensures
        apply_ops(apply_ops(fs, scaffold_plan(name, lib))->Ok_0, scaffold_plan(name, lib))
            == Err::<FsModel, ErrorKind>(ErrorKind::FileCreateFailed),
{
    let plan = scaffold_plan(name, lib);
    let fs1 = apply_ops(fs, plan)->Ok_0;
    let op0 = FsOpModel::MkDir { path: dir_path(name, "src"@) };
    match lib {
        None => {
            let w1 = plan[1];
            assert(plan =~= seq![op0, plan[1], plan[2], plan[3]]);
            assert(w1 is WriteFile);
            lemma_apply_ops_records_write(fs, plan, 1);
            let fs1b = FsModel { dirs: fs1.dirs.insert(dir_path(name, "src"@)), files: fs1.files };
            assert(apply_op(fs1, plan[0]) == Ok::<FsModel, ErrorKind>(fs1b));
            assert(plan.drop_first() =~= seq![plan[1], plan[2], plan[3]]);
            assert(fs1b.files.contains_key(plan[1]->WriteFile_path));
            assert(apply_op(fs1b, plan[1]) == Err::<FsModel, ErrorKind>(ErrorKind::FileCreateFailed));
            assert(apply_ops(fs1b, plan.drop_first()) == Err::<FsModel, ErrorKind>(
                ErrorKind::FileCreateFailed,
            ));
        },
        Some(file_base) => {
            let opl = FsOpModel::MkDir { path: dir_path(name, "lib"@) };
            assert(plan =~= seq![op0, opl, plan[2], plan[3], plan[4], plan[5], plan[6]]);
            assert(plan[2] is WriteFile);
            lemma_apply_ops_records_write(fs, plan, 2);
            let fs1b = FsModel { dirs: fs1.dirs.insert(dir_path(name, "src"@)), files: fs1.files };
            let fs1c = FsModel { dirs: fs1b.dirs.insert(dir_path(name, "lib"@)), files: fs1b.files };
            assert(apply_op(fs1, plan[0]) == Ok::<FsModel, ErrorKind>(fs1b));
            assert(apply_op(fs1b, plan[1]) == Ok::<FsModel, ErrorKind>(fs1c));
            assert(plan.drop_first() =~= seq![opl, plan[2], plan[3], plan[4], plan[5], plan[6]]);
            assert(plan.drop_first().drop_first() =~= seq![
                plan[2],
                plan[3],
                plan[4],
                plan[5],
                plan[6],
            ]);
            assert(fs1c.files.contains_key(plan[2]->WriteFile_path));
            assert(apply_op(fs1c, plan[2]) == Err::<FsModel, ErrorKind>(ErrorKind::FileCreateFailed));
            assert(apply_ops(fs1c, plan.drop_first().drop_first()) == Err::<FsModel, ErrorKind>(
                ErrorKind::FileCreateFailed,
            ));
            assert(apply_ops(fs1b, plan.drop_first()) == Err::<FsModel, ErrorKind>(
                ErrorKind::FileCreateFailed,
            ));
        },
    }
}

} // verus!
