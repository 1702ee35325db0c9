//! The decisions of `init`: which names a project may have, which files
//! make it up, and the texts and paths that the command derives from the name.
use vstd::prelude::*;
use vstd::string::StringExecFns;
use crate::content::templates::{
    entrypoint_rs, entrypoint_rs_text, errors_rs, gitignore, lemma_manifest_names_package, lib_rs,
    manifest, manifest_text, package_name_line_text, readme_md,
    splice, spliced,
    ERRORS_RS, GITIGNORE, LIB_RS, README_MD,
};
use crate::content::templates::instructions::{
    deposit, initialize, instructions_mod_rs, withdraw, DEPOSIT_RS, INITIALIZE_RS,
    INSTRUCTIONS_MOD_RS, WITHDRAW_RS,
};
use crate::content::templates::states::{
    state_rs, states_mod_rs, utils_rs, STATES_MOD_RS, STATE_RS, UTILS_RS,
};
use crate::content::templates::unit_tests::{
    litesvm_initialize_rs, litesvm_initialize_rs_text, unit_test_rs, unit_test_rs_text,
};
use crate::manifest::{
    crate_name, crate_name_text, keypair_path_text, lemma_package_name_read_unchanged,
    package_name_outcome, toml_string_entry, ManifestError,
};
use crate::text::{chars_of, contains_exec, has_substring, starts_with};

verus! {

/// The test framework that a new project is set up for.
#[derive(Clone, Copy, Debug, PartialEq, Eq, Structural)]
pub enum TestFramework {
    Mollusk,
    Litesvm,
}

/// A character that a project name may hold: an ASCII letter or digit, an
/// underscore or a hyphen.
pub open spec fn is_project_name_char(c: char) -> bool {
    ||| ('a' <= c && c <= 'z')
    ||| ('A' <= c && c <= 'Z')
    ||| ('0' <= c && c <= '9')
    ||| c == '_'
    ||| c == '-'
}

/// A project name is not empty, holds only letters, digits, underscores and
/// hyphens, and does not begin with a hyphen (it would read as an option).
pub open spec fn valid_project_name(name: Seq<char>) -> bool {
    &&& name.len() > 0
    &&& name[0] != '-'
    &&& forall|i: int| 0 <= i < name.len() ==> #[trigger] is_project_name_char(name[i])
}

/// Whether `name` may name a new project.
pub fn is_valid_project_name(name: &str) -> (b: bool)
    ensures
        b == valid_project_name(name@),
        b == (name@.len() > 0 && name@[0] != '-' && forall|i: int|
            0 <= i < name@.len() ==> {
                let c = #[trigger] name@[i];
                ||| ('a' <= c && c <= 'z')
                ||| ('A' <= c && c <= 'Z')
                ||| ('0' <= c && c <= '9')
                ||| c == '_'
                ||| c == '-'
            }),
{
    proof {
        lemma_valid_name_chars(name@);
    }
    let v = chars_of(name);
    if v.len() == 0 || v[0] == '-' {
        return false;
    }
    let mut i: usize = 0;
    while i < v.len()
        invariant
            v@ == name@,
            i <= v.len(),
            forall|k: int| 0 <= k < i ==> #[trigger] is_project_name_char(v@[k]),
        decreases v.len() - i,
    {
        let c = v[i];
        let ok = ('a' <= c && c <= 'z') || ('A' <= c && c <= 'Z') || ('0' <= c && c <= '9') || c
            == '_' || c == '-';
        if !ok {
            assert(!is_project_name_char(name@[i as int]));
            return false;
        }
        i += 1;
    }
    true
}

/// A name may name a project exactly when it is not empty, does not begin
/// with a hyphen, and each of its characters is an ASCII letter, an ASCII
/// digit, an underscore or a hyphen: a name that holds any other character,
/// such as a dot, a space or a slash, is refused.
pub proof fn lemma_valid_name_chars(name: Seq<char>)
    ensures
        valid_project_name(name) <==> (name.len() > 0 && name[0] != '-' && forall|i: int|
            0 <= i < name.len() ==> {
                let c = #[trigger] name[i];
                ||| ('a' <= c && c <= 'z')
                ||| ('A' <= c && c <= 'Z')
                ||| ('0' <= c && c <= '9')
                ||| c == '_'
                ||| c == '-'
            }),
        forall|i: int|
            0 <= i < name.len() && (#[trigger] name[i] == '.' || name[i] == ' ' || name[i] == '/')
                ==> !valid_project_name(name),
{
    if valid_project_name(name) {
        assert forall|i: int| 0 <= i < name.len() implies {
            let c = #[trigger] name[i];
            ||| ('a' <= c && c <= 'z')
            ||| ('A' <= c && c <= 'Z')
            ||| ('0' <= c && c <= '9')
            ||| c == '_'
            ||| c == '-'
        } by {
            assert(is_project_name_char(name[i]));
        }
    }
    assert forall|i: int|
        0 <= i < name.len() && (#[trigger] name[i] == '.' || name[i] == ' ' || name[i] == '/')
            implies !valid_project_name(name) by {
        assert(!is_project_name_char(name[i]));
    }
}

/// The manifest of a new project, from the line naming the package to the test dependencies.
pub const PROJECT_CARGO_TOML_MID: &'static str = r#"
version = "0.1.0"
edition = "2021"

[lib]
crate-type = ["cdylib", "rlib"]

[dependencies]
pinocchio = "0.10.2"
pinocchio-log = "0.5.1"
pinocchio-system = "0.5.0"
shank = "0.4.8"

"#;

/// The manifest of a new project, after the test dependencies.
pub const PROJECT_CARGO_TOML_TAIL: &'static str = r#"

[features]
no-entrypoint = []
std = []
test-default = ["no-entrypoint", "std"]
"#;

/// The test dependencies of a project tested with Mollusk.
pub const MOLLUSK_DEV_DEPENDENCIES: &'static str = r#"
[dev-dependencies]
solana-sdk = "3.0.0"
mollusk-svm = "0.9.0"
mollusk-svm-bencher = "0.9.0"
"#;

/// The test dependencies of a project tested with LiteSVM.
pub const LITESVM_DEV_DEPENDENCIES: &'static str = r#"
[dev-dependencies]
solana-sdk = "3.0.0"
litesvm = "0.9.1"
litesvm-token = "0.9.1"
"#;

/// The test dependencies for `framework`.
pub open spec fn dev_dependencies_text(framework: TestFramework) -> Seq<char> {
    match framework {
        TestFramework::Mollusk => MOLLUSK_DEV_DEPENDENCIES@,
        TestFramework::Litesvm => LITESVM_DEV_DEPENDENCIES@,
    }
}

/// The manifest text of the new project `project_name`.
pub open spec fn project_cargo_toml_text(project_name: Seq<char>, framework: TestFramework) -> Seq<
    char,
> {
    manifest_text(
        project_name,
        PROJECT_CARGO_TOML_MID@ + dev_dependencies_text(framework) + PROJECT_CARGO_TOML_TAIL@,
    )
}

/// The manifest that `init` writes for the project `project_name`, with the
/// dependencies of the program and those of the chosen test framework.
pub fn project_cargo_toml(project_name: &str, framework: TestFramework) -> (r: String)
    ensures
        r@ == project_cargo_toml_text(project_name@, framework),
{
    let mut rest = String::from_str(PROJECT_CARGO_TOML_MID);
    match framework {
        TestFramework::Mollusk => rest.append(MOLLUSK_DEV_DEPENDENCIES),
        TestFramework::Litesvm => rest.append(LITESVM_DEV_DEPENDENCIES),
    }
    rest.append(PROJECT_CARGO_TOML_TAIL);
    manifest(project_name, rest.as_str())
}

/// A file of a new project: its path relative to the project directory, and
/// its contents.
pub struct ProjectFile {
    pub path: String,
    pub contents: String,
}

impl View for ProjectFile {
    type V = (Seq<char>, Seq<char>);

    open spec fn view(&self) -> (Seq<char>, Seq<char>) {
        (self.path@, self.contents@)
    }
}

/// The test file text for `framework`; the test refers to the program by its
/// crate name.
pub open spec fn test_file_text(
    user_address: Seq<char>,
    program_address: Seq<char>,
    project_name: Seq<char>,
    framework: TestFramework,
) -> Seq<char> {
    match framework {
        TestFramework::Mollusk => unit_test_rs_text(
            user_address,
            program_address,
            crate_name_text(project_name),
        ),
        TestFramework::Litesvm => litesvm_initialize_rs_text(crate_name_text(project_name)),
    }
}

/// The files of a new project, in the order in which `init` writes them.
pub open spec fn project_layout(
    project_name: Seq<char>,
    user_address: Seq<char>,
    program_address: Seq<char>,
    framework: TestFramework,
) -> Seq<(Seq<char>, Seq<char>)> {
    seq![
        ("README.md"@, README_MD@),
        (".gitignore"@, GITIGNORE@),
        ("src/lib.rs"@, LIB_RS@),
        ("tests/tests.rs"@, test_file_text(user_address, program_address, project_name, framework)),
        ("src/entrypoint.rs"@, entrypoint_rs_text(program_address)),
        ("src/errors.rs"@, ERRORS_RS@),
        ("src/instructions/mod.rs"@, INSTRUCTIONS_MOD_RS@),
        ("src/instructions/initialize.rs"@, INITIALIZE_RS@),
        ("src/instructions/deposit.rs"@, DEPOSIT_RS@),
        ("src/instructions/withdraw.rs"@, WITHDRAW_RS@),
        ("src/states/mod.rs"@, STATES_MOD_RS@),
        ("src/states/utils.rs"@, UTILS_RS@),
        ("src/states/state.rs"@, STATE_RS@),
    ]
}

/// Each entry of the layout carries the template that its path names.
proof fn lemma_layout_by_path(
    project_name: Seq<char>,
    user_address: Seq<char>,
    program_address: Seq<char>,
    framework: TestFramework,
)
    ensures
        project_layout(project_name, user_address, program_address, framework).len() == 13,
        forall|i: int|
            0 <= i < 13 ==> {
                let entry = #[trigger] project_layout(
                    project_name,
                    user_address,
                    program_address,
                    framework,
                )[i];
                let path = entry.0;
                let contents = entry.1;
                &&& path == "README.md"@ ==> contents == README_MD@
                &&& path == ".gitignore"@ ==> contents == GITIGNORE@
                &&& path == "src/lib.rs"@ ==> contents == LIB_RS@
                &&& path == "tests/tests.rs"@ ==> contents == match framework {
                    TestFramework::Mollusk => unit_test_rs_text(
                        user_address,
                        program_address,
                        crate_name_text(project_name),
                    ),
                    TestFramework::Litesvm => litesvm_initialize_rs_text(
                        crate_name_text(project_name),
                    ),
                }
                &&& path == "src/entrypoint.rs"@ ==> contents == entrypoint_rs_text(program_address)
                &&& path == "src/errors.rs"@ ==> contents == ERRORS_RS@
                &&& path == "src/instructions/mod.rs"@ ==> contents == INSTRUCTIONS_MOD_RS@
                &&& path == "src/instructions/initialize.rs"@ ==> contents == INITIALIZE_RS@
                &&& path == "src/instructions/deposit.rs"@ ==> contents == DEPOSIT_RS@
                &&& path == "src/instructions/withdraw.rs"@ ==> contents == WITHDRAW_RS@
                &&& path == "src/states/mod.rs"@ ==> contents == STATES_MOD_RS@
                &&& path == "src/states/utils.rs"@ ==> contents == UTILS_RS@
                &&& path == "src/states/state.rs"@ ==> contents == STATE_RS@
            },
{
    reveal_strlit("README.md");
    reveal_strlit(".gitignore");
    reveal_strlit("src/lib.rs");
    reveal_strlit("tests/tests.rs");
    reveal_strlit("src/entrypoint.rs");
    reveal_strlit("src/errors.rs");
    reveal_strlit("src/instructions/mod.rs");
    reveal_strlit("src/instructions/initialize.rs");
    reveal_strlit("src/instructions/deposit.rs");
    reveal_strlit("src/instructions/withdraw.rs");
    reveal_strlit("src/states/mod.rs");
    reveal_strlit("src/states/utils.rs");
    reveal_strlit("src/states/state.rs");
    assert(".gitignore"@[0] != "src/lib.rs"@[0]);
    assert("src/entrypoint.rs"@[4] != "src/states/mod.rs"@[4]);
    assert("src/states/utils.rs"@[11] != "src/states/state.rs"@[11]);
    assert("README.md"@.len() == 9);
    assert(".gitignore"@.len() == 10);
    assert("src/lib.rs"@.len() == 10);
    assert("tests/tests.rs"@.len() == 14);
    assert("src/entrypoint.rs"@.len() == 17);
    assert("src/errors.rs"@.len() == 13);
    assert("src/instructions/mod.rs"@.len() == 23);
    assert("src/instructions/initialize.rs"@.len() == 30);
    assert("src/instructions/deposit.rs"@.len() == 27);
    assert("src/instructions/withdraw.rs"@.len() == 28);
    assert("src/states/mod.rs"@.len() == 17);
    assert("src/states/utils.rs"@.len() == 19);
    assert("src/states/state.rs"@.len() == 19);
    let layout = project_layout(project_name, user_address, program_address, framework);
    assert forall|i: int| 0 <= i < 13 implies {
        let entry = #[trigger] layout[i];
        let path = entry.0;
        let contents = entry.1;
        &&& path == "README.md"@ ==> contents == README_MD@
        &&& path == ".gitignore"@ ==> contents == GITIGNORE@
        &&& path == "src/lib.rs"@ ==> contents == LIB_RS@
        &&& path == "tests/tests.rs"@ ==> contents == match framework {
            TestFramework::Mollusk => unit_test_rs_text(
                user_address,
                program_address,
                crate_name_text(project_name),
            ),
            TestFramework::Litesvm => litesvm_initialize_rs_text(crate_name_text(project_name)),
        }
        &&& path == "src/entrypoint.rs"@ ==> contents == entrypoint_rs_text(program_address)
        &&& path == "src/errors.rs"@ ==> contents == ERRORS_RS@
        &&& path == "src/instructions/mod.rs"@ ==> contents == INSTRUCTIONS_MOD_RS@
        &&& path == "src/instructions/initialize.rs"@ ==> contents == INITIALIZE_RS@
        &&& path == "src/instructions/deposit.rs"@ ==> contents == DEPOSIT_RS@
        &&& path == "src/instructions/withdraw.rs"@ ==> contents == WITHDRAW_RS@
        &&& path == "src/states/mod.rs"@ ==> contents == STATES_MOD_RS@
        &&& path == "src/states/utils.rs"@ ==> contents == UTILS_RS@
        &&& path == "src/states/state.rs"@ ==> contents == STATE_RS@
    } by {
        if i == 0 {
            assert(layout[0] == ("README.md"@, README_MD@));
        } else if i == 1 {
            assert(layout[1] == (".gitignore"@, GITIGNORE@));
        } else if i == 2 {
            assert(layout[2] == ("src/lib.rs"@, LIB_RS@));
        } else if i == 3 {
            assert(layout[3] == (
                "tests/tests.rs"@,
                test_file_text(user_address, program_address, project_name, framework),
            ));
        } else if i == 4 {
            assert(layout[4] == ("src/entrypoint.rs"@, entrypoint_rs_text(program_address)));
        } else if i == 5 {
            assert(layout[5] == ("src/errors.rs"@, ERRORS_RS@));
        } else if i == 6 {
            assert(layout[6] == ("src/instructions/mod.rs"@, INSTRUCTIONS_MOD_RS@));
        } else if i == 7 {
            assert(layout[7] == ("src/instructions/initialize.rs"@, INITIALIZE_RS@));
        } else if i == 8 {
            assert(layout[8] == ("src/instructions/deposit.rs"@, DEPOSIT_RS@));
        } else if i == 9 {
            assert(layout[9] == ("src/instructions/withdraw.rs"@, WITHDRAW_RS@));
        } else if i == 10 {
            assert(layout[10] == ("src/states/mod.rs"@, STATES_MOD_RS@));
        } else if i == 11 {
            assert(layout[11] == ("src/states/utils.rs"@, UTILS_RS@));
        } else {
            assert(layout[12] == ("src/states/state.rs"@, STATE_RS@));
        }
    }
}

fn file(path: &str, contents: String) -> (f: ProjectFile)
    ensures
        f@ == (path@, contents@),
{
    ProjectFile { path: String::from_str(path), contents }
}

/// The files that make up the new project `project_name` whose program has
/// the address `program_address` and whose tests pay from `user_address`:
/// thirteen files, each holding the template that its path names, with the
/// program address in the entrypoint and the addresses and the crate name in
/// the test file of the chosen framework.
pub fn project_files(
    project_name: &str,
    user_address: &str,
    program_address: &str,
    framework: TestFramework,
) -> (files: Vec<ProjectFile>)
    ensures
        files@.len() == project_layout(
            project_name@,
            user_address@,
            program_address@,
            framework,
        ).len(),
        forall|i: int|
            0 <= i < files@.len() ==> #[trigger] files@[i]@ == project_layout(
                project_name@,
                user_address@,
                program_address@,
                framework,
            )[i],
        files@.len() == 13,
        files@[0].path@ == "README.md"@,
        files@[1].path@ == ".gitignore"@,
        files@[2].path@ == "src/lib.rs"@,
        files@[3].path@ == "tests/tests.rs"@,
        files@[4].path@ == "src/entrypoint.rs"@,
        files@[5].path@ == "src/errors.rs"@,
        files@[6].path@ == "src/instructions/mod.rs"@,
        files@[7].path@ == "src/instructions/initialize.rs"@,
        files@[8].path@ == "src/instructions/deposit.rs"@,
        files@[9].path@ == "src/instructions/withdraw.rs"@,
        files@[10].path@ == "src/states/mod.rs"@,
        files@[11].path@ == "src/states/utils.rs"@,
        files@[12].path@ == "src/states/state.rs"@,
        forall|i: int|
            0 <= i < files@.len() ==> {
                let path = (#[trigger] files@[i]).path@;
                let contents = files@[i].contents@;
                &&& path == "README.md"@ ==> contents == README_MD@
                &&& path == ".gitignore"@ ==> contents == GITIGNORE@
                &&& path == "src/lib.rs"@ ==> contents == LIB_RS@
                &&& path == "tests/tests.rs"@ ==> contents == match framework {
                    TestFramework::Mollusk => unit_test_rs_text(
                        user_address@,
                        program_address@,
                        crate_name_text(project_name@),
                    ),
                    TestFramework::Litesvm => litesvm_initialize_rs_text(
                        crate_name_text(project_name@),
                    ),
                }
                &&& path == "src/entrypoint.rs"@ ==> contents == entrypoint_rs_text(program_address@)
                &&& path == "src/errors.rs"@ ==> contents == ERRORS_RS@
                &&& path == "src/instructions/mod.rs"@ ==> contents == INSTRUCTIONS_MOD_RS@
                &&& path == "src/instructions/initialize.rs"@ ==> contents == INITIALIZE_RS@
                &&& path == "src/instructions/deposit.rs"@ ==> contents == DEPOSIT_RS@
                &&& path == "src/instructions/withdraw.rs"@ ==> contents == WITHDRAW_RS@
                &&& path == "src/states/mod.rs"@ ==> contents == STATES_MOD_RS@
                &&& path == "src/states/utils.rs"@ ==> contents == UTILS_RS@
                &&& path == "src/states/state.rs"@ ==> contents == STATE_RS@
            },
{
    let crate_ident = crate_name(project_name);
    let test_contents = match framework {
        TestFramework::Mollusk => unit_test_rs(user_address, program_address, crate_ident.as_str()),
        TestFramework::Litesvm => litesvm_initialize_rs(crate_ident.as_str()),
    };
    let mut files: Vec<ProjectFile> = Vec::new();
    files.push(file("README.md", String::from_str(readme_md())));
    files.push(file(".gitignore", String::from_str(gitignore())));
    files.push(file("src/lib.rs", lib_rs()));
    files.push(file("tests/tests.rs", test_contents));
    files.push(file("src/entrypoint.rs", entrypoint_rs(program_address)));
    files.push(file("src/errors.rs", String::from_str(errors_rs())));
    files.push(file("src/instructions/mod.rs", String::from_str(instructions_mod_rs())));
    files.push(file("src/instructions/initialize.rs", String::from_str(initialize())));
    files.push(file("src/instructions/deposit.rs", String::from_str(deposit())));
    files.push(file("src/instructions/withdraw.rs", String::from_str(withdraw())));
    files.push(file("src/states/mod.rs", String::from_str(states_mod_rs())));
    files.push(file("src/states/utils.rs", String::from_str(utils_rs())));
    files.push(file("src/states/state.rs", String::from_str(state_rs())));
    proof {
        lemma_layout_by_path(project_name@, user_address@, program_address@, framework);
    }
    files
}

/// The path, relative to the project directory, of the program keypair that
/// `init` generates.
pub open spec fn init_keypair_path_text(project_name: Seq<char>) -> Seq<char> {
    spliced("./target/deploy/"@, project_name, "-keypair.json"@)
}

/// Where `init` writes the program keypair of `project_name`.
pub fn init_keypair_path(project_name: &str) -> (r: String)
    ensures
        r@ == init_keypair_path_text(project_name@),
{
    splice("./target/deploy/", project_name, "-keypair.json")
}

/// `init` writes the program keypair where `keys` looks for it: run in the
/// project directory `.`, `keys` derives from the package name the path
/// `./target/deploy/<name>-keypair.json`, which is the path under which
/// `init` has the keypair generated, for every valid project name.
pub proof fn lemma_init_keypair_is_expected_keypair(name: Seq<char>)
    requires
        valid_project_name(name),
    ensures
        keypair_path_text("."@, name) == init_keypair_path_text(name),
{
    reveal_strlit(".");
    reveal_strlit("target");
    reveal_strlit("deploy");
    reveal_strlit("./target/deploy/");
    reveal_strlit("-keypair.json");
    assert(is_project_name_char(name[0]));
    let file_name = name + "-keypair.json"@;
    assert(file_name[0] == name[0]);
    assert(keypair_path_text("."@, name) =~= "./target/deploy/"@ + file_name);
    assert(init_keypair_path_text(name) =~= "./target/deploy/"@ + file_name);
}

/// `keys` finds the keypair of a project that `init` made: the manifest that
/// `init` writes for a valid name begins with `[package]` and the line
/// `name = "<name>"`, `init` has the keypair generated at
/// `./target/deploy/<name>-keypair.json`, and where the TOML lookup of
/// `[package].name` in the manifest gives the name back, the name read is the
/// name itself, unchanged (hyphens included), and the keypair path derived
/// from it in the project directory `.` is the path under which `init` has
/// the keypair generated.
pub proof fn lemma_init_manifest_leads_to_init_keypair(
    project_name: Seq<char>,
    framework: TestFramework,
)
    requires
        valid_project_name(project_name),
    ensures
        starts_with(
            project_cargo_toml_text(project_name, framework),
            "[package]\nname = \""@ + project_name + "\""@,
        ),
        has_substring(
            project_cargo_toml_text(project_name, framework),
            package_name_line_text(project_name),
        ),
        init_keypair_path_text(project_name) == "./target/deploy/"@ + project_name
            + "-keypair.json"@,
        toml_string_entry(project_cargo_toml_text(project_name, framework), "package"@, "name"@)
            == Some(Some(project_name)) ==> package_name_outcome(
            toml_string_entry(
                project_cargo_toml_text(project_name, framework),
                "package"@,
                "name"@,
            ),
        ) == Ok::<Seq<char>, ManifestError>(project_name) && keypair_path_text(
            "."@,
            project_name,
        ) == init_keypair_path_text(project_name),
{
    lemma_manifest_names_package(
        project_name,
        PROJECT_CARGO_TOML_MID@ + dev_dependencies_text(framework) + PROJECT_CARGO_TOML_TAIL@,
    );
    lemma_package_name_read_unchanged(
        toml_string_entry(project_cargo_toml_text(project_name, framework), "package"@, "name"@),
    );
    lemma_init_keypair_is_expected_keypair(project_name);
    reveal_strlit("[package]\n");
    reveal_strlit("name = \"");
    reveal_strlit("\"");
    reveal_strlit("[package]\nname = \"");
    let line = "[package]\nname = \""@ + project_name + "\""@;
    let text = project_cargo_toml_text(project_name, framework);
    assert(text.take(line.len() as int) =~= line);
}

/// A file name whose extension is `so` (a shared object, the compiled
/// program): after its last dot comes `so`, and before that dot stands a
/// non-empty stem.
pub open spec fn is_program_artifact_name(file_name: Seq<char>) -> bool {
    file_name.len() > 3 && file_name.skip(file_name.len() - 3) == ".so"@
}

/// Whether `deploy` takes the file `file_name` of `target/deploy` for the
/// compiled program (`Path::extension` is `so`).
pub fn is_program_artifact(file_name: &str) -> (b: bool)
    ensures
        b == is_program_artifact_name(file_name@),
{
    let v = chars_of(file_name);
    proof {
        reveal_strlit(".so");
    }
    if v.len() <= 3 {
        return false;
    }
    let n = v.len();
    let b = v[n - 3] == '.' && v[n - 2] == 's' && v[n - 1] == 'o';
    proof {
        let tail = v@.skip(n - 3);
        if b {
            assert(tail =~= ".so"@);
        } else if tail == ".so"@ {
            assert(tail[0] == v@[n - 3] && tail[1] == v@[n - 2] && tail[2] == v@[n - 1]);
        }
    }
    b
}

/// The path of the IDL that shank writes for `project_name`.
pub open spec fn idl_path_text(project_name: Seq<char>) -> Seq<char> {
    spliced("idl/"@, project_name, ".json"@)
}

/// Where the client command expects the IDL of `project_name`.
pub fn idl_path(project_name: &str) -> (r: String)
    ensures
        r@ == idl_path_text(project_name@),
{
    splice("idl/", project_name, ".json")
}

/// The message of the first commit of a new project.
pub open spec fn initial_commit_message_text(project_name: Seq<char>) -> Seq<char> {
    spliced("Initial commit: Setup Pinocchio project '"@, project_name, "'"@)
}

/// The message of the first commit of the new project `project_name`.
pub fn initial_commit_message(project_name: &str) -> (r: String)
    ensures
        r@ == initial_commit_message_text(project_name@),
{
    splice("Initial commit: Setup Pinocchio project '", project_name, "'")
}

/// Whether a failed commit's error output shows that git lacks the user's
/// identity, so that the hint to configure it is due.
pub fn needs_git_identity_hint(commit_stderr: &str) -> (b: bool)
    ensures
        b == (has_substring(commit_stderr@, "user.email"@) || has_substring(
            commit_stderr@,
            "user.name"@,
        )),
{
    contains_exec(commit_stderr, "user.email") || contains_exec(commit_stderr, "user.name")
}

} // verus!
