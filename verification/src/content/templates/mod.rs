//! The files that a new project starts from.
//!
//! Each template is a constant text, or a constant text with the caller's
//! values put in at fixed places; the contracts say which.
pub mod instructions;
pub mod states;

use vstd::prelude::*;
use vstd::string::StringExecFns;
use crate::text::{has_substring, occurs_at};

verus! {

/// The crate root of a new project.
pub const LIB_RS: &'static str = r#"#![no_std]

#[cfg(feature = "std")]
extern crate std;

mod entrypoint;

pub mod errors;
pub mod instructions;
pub mod states;

pub use entrypoint::{id, ID};"#;

/// The program entrypoint, up to the invocation that declares its address.
pub const ENTRYPOINT_RS_HEAD: &'static str = r#"#![allow(unexpected_cfgs)]

use crate::instructions::{self, ProgramInstruction};
use pinocchio::{
    error::ProgramError, default_panic_handler, no_allocator, program_entrypoint,
    AccountView, Address, ProgramResult,
};

pinocchio::address::"#;

/// The program entrypoint, after the invocation that declares its address.
pub const ENTRYPOINT_RS_TAIL: &'static str = r#";

// This is the entrypoint for the program.
#[cfg(not(feature = "no-entrypoint"))]
program_entrypoint!(process_instruction);
//Do not allocate memory.
#[cfg(not(feature = "no-entrypoint"))]
no_allocator!();
// Use the no_std panic handler.
#[cfg(not(feature = "no-entrypoint"))]
default_panic_handler!();

#[inline(always)]
fn process_instruction(
    _program_id: &Address,
    accounts: &[AccountView],
    instruction_data: &[u8],
) -> ProgramResult {
    let (ix_disc, instruction_data) = instruction_data
        .split_first()
        .ok_or(ProgramError::InvalidInstructionData)?;

    match ProgramInstruction::try_from(ix_disc)? {
        ProgramInstruction::InitializeState => {
            pinocchio_log::log!("initialize");
            instructions::initialize(accounts, instruction_data)
        }
        ProgramInstruction::Deposit => {
            pinocchio_log::log!("deposit");
            instructions::deposit(accounts, instruction_data)
        }
        ProgramInstruction::Withdraw => {
            pinocchio_log::log!("withdraw");
            instructions::withdraw(accounts, instruction_data)
        }
    }
}"#;

/// The table header that begins a manifest.
pub const PACKAGE_HEADER: &'static str = "[package]\n";

/// The README of a new project.
pub const README_MD: &'static str = r#"# Chio Pinocchio Project

A Solana program built with the Chio CLI tool.

## Project Structure

```
src/
├── entrypoint.rs          # Program entry point with nostd_panic_handler
├── lib.rs                 # Library crate (no_std optimization)
├── instructions/          # Program instruction handlers
├── states/                # Account state definitions
│   └── utils.rs           # State management helpers (load_acc, load_mut_acc)
└── errors.rs              # Program error definitions

tests/
└── tests.rs               # Unit tests using mollusk-svm framework
```

## Commands

```bash
# Build the program
 chio build

# Run tests
 chio test

# Deploy the program
 chio deploy

# Get help
 chio help
```

---

**Author of Chio CLI**: [4rjunc](https://github.com/4rjunc) | [Twitter](https://x.com/4rjunc)"#;

/// The `.gitignore` of a new project.
pub const GITIGNORE: &'static str = r#"/target
.env"#;

/// A manifest for Mollusk tests, after the line that names the package.
pub const CARGO_TOML_MOLLUSK_TAIL: &'static str = r#"
version = "0.1.0"
edition = "2021"

[lib]
crate-type = ["cdylib", "rlib"]

[dependencies]
pinocchio = "0.10.2"

[dev-dependencies]
solana-sdk = "3.0.0"
mollusk-svm = "0.9.0"
mollusk-svm-bencher = "0.9.0"

[features]
no-entrypoint = []
std = []
test-default = ["no-entrypoint", "std"]
"#;

/// A manifest for LiteSVM tests, after the line that names the package.
pub const CARGO_TOML_LITESVM_TAIL: &'static str = r#"
version = "0.1.0"
edition = "2021"

[lib]
crate-type = ["cdylib", "rlib"]

[dependencies]
pinocchio = "0.10.2"

[dev-dependencies]
solana-sdk = "3.0.0"
litesvm = "0.9.1"
litesvm-token = "0.9.1"

[features]
no-entrypoint = []
std = []
test-default = ["no-entrypoint", "std"]
"#;

/// The error definitions of a new project.
pub const ERRORS_RS: &'static str = r#"use pinocchio::error::ProgramError;

#[derive(Clone, PartialEq, shank::ShankType)]
pub enum MyProgramError {
    InvalidInstructionData,
    PdaMismatch,
    InvalidOwner,
}

impl From<MyProgramError> for ProgramError {
    fn from(e: MyProgramError) -> Self {
        Self::Custom(e as u32)
    }
}
"#;

/// The codama configuration, up to the project name.
pub const CODAMA_JSON_HEAD: &'static str = r#"{
  "idl": "idl/"#;

/// The codama configuration, after the project name.
pub const CODAMA_JSON_TAIL: &'static str = r#".json",
  "before": [],
  "scripts": {
    "js": {
      "from": "@codama/renderers-js",
      "args": ["clients/js/src/generated"]
    }
  }
}
"#;

/// The client package manifest, up to the project name.
pub const PACKAGE_JSON_HEAD: &'static str = r#"{
  "name": ""#;

/// The client package manifest, after the project name.
pub const PACKAGE_JSON_TAIL: &'static str = r#"-client",
  "private": true,
  "type": "module",
  "devDependencies": {
    "@codama/nodes-from-anchor": "^1.0.0",
    "@codama/renderers-js": "^1.0.0",
    "codama": "^1.0.0"
  }
}
"#;

/// `head`, then `value`, then `tail`.
pub open spec fn spliced(head: Seq<char>, value: Seq<char>, tail: Seq<char>) -> Seq<char> {
    head + value + tail
}

/// The text `head + value + tail`.
pub fn splice(head: &str, value: &str, tail: &str) -> (r: String)
    ensures
        r@ == spliced(head@, value@, tail@),
{
    let mut r = String::from_str(head);
    r.append(value);
    r.append(tail);
    r
}

/// The crate root of a new project: `no_std`, with its modules and the
/// program id taken from the entrypoint.
pub fn lib_rs() -> (r: String)
    ensures
        r@ == LIB_RS@,
{
    String::from_str(LIB_RS)
}

/// The invocation `declare_id!("<address>")`.
pub open spec fn declare_id_invocation_text(address: Seq<char>) -> Seq<char> {
    spliced("declare_id!(\""@, address, "\")"@)
}

/// The invocation that declares `address` as the program id.
pub fn declare_id_invocation(address: &str) -> (r: String)
    ensures
        r@ == declare_id_invocation_text(address@),
        r@ == "declare_id!(\""@ + address@ + "\")"@,
{
    splice("declare_id!(\"", address, "\")")
}

/// The entrypoint text for a program whose address is `address`.
pub open spec fn entrypoint_rs_text(address: Seq<char>) -> Seq<char> {
    spliced(ENTRYPOINT_RS_HEAD@, declare_id_invocation_text(address), ENTRYPOINT_RS_TAIL@)
}

/// The program entrypoint, which declares `address` as the program id.
pub fn entrypoint_rs(address: &str) -> (r: String)
    ensures
        r@ == entrypoint_rs_text(address@),
{
    let invocation = declare_id_invocation(address);
    splice(ENTRYPOINT_RS_HEAD, invocation.as_str(), ENTRYPOINT_RS_TAIL)
}

/// The entrypoint of a program declares that program's address as its id:
/// the text holds `declare_id!("<address>")`, whatever the address.
pub proof fn lemma_entrypoint_declares_address(address: Seq<char>)
    ensures
        occurs_at(
            entrypoint_rs_text(address),
            declare_id_invocation_text(address),
            ENTRYPOINT_RS_HEAD@.len() as int,
        ),
        has_substring(entrypoint_rs_text(address), declare_id_invocation_text(address)),
{
    let head = ENTRYPOINT_RS_HEAD@;
    let inv = declare_id_invocation_text(address);
    let text = entrypoint_rs_text(address);
    assert(text.subrange(head.len() as int, (head.len() + inv.len()) as int) =~= inv);
    assert(occurs_at(text, inv, head.len() as int));
}

/// The line `name = "<name>"` that names a package in a manifest.
pub open spec fn package_name_line_text(name: Seq<char>) -> Seq<char> {
    spliced("name = \""@, name, "\""@)
}

/// The line that names the package `name` in a manifest.
pub fn package_name_line(name: &str) -> (r: String)
    ensures
        r@ == package_name_line_text(name@),
{
    splice("name = \"", name, "\"")
}

/// A manifest: the package header, the line naming the package, then `rest`.
pub open spec fn manifest_text(name: Seq<char>, rest: Seq<char>) -> Seq<char> {
    PACKAGE_HEADER@ + package_name_line_text(name) + rest
}

/// The manifest of the package `name` whose text after the name line is
/// `rest`.
pub fn manifest(name: &str, rest: &str) -> (r: String)
    ensures
        r@ == manifest_text(name@, rest@),
{
    let line = package_name_line(name);
    splice(PACKAGE_HEADER, line.as_str(), rest)
}

/// A manifest names its package right after the package header: the line
/// `name = "<name>"` stands there, whatever the name.
pub proof fn lemma_manifest_names_package(name: Seq<char>, rest: Seq<char>)
    ensures
        occurs_at(
            manifest_text(name, rest),
            package_name_line_text(name),
            PACKAGE_HEADER@.len() as int,
        ),
        has_substring(manifest_text(name, rest), package_name_line_text(name)),
{
    let text = manifest_text(name, rest);
    let line = package_name_line_text(name);
    assert(text.subrange(PACKAGE_HEADER@.len() as int, (PACKAGE_HEADER@.len() + line.len()) as int)
        =~= line);
    assert(occurs_at(text, line, PACKAGE_HEADER@.len() as int));
}

/// The README of a new project.
pub fn readme_md() -> (r: &'static str)
    ensures
        r@ == README_MD@,
{
    README_MD
}

/// The `.gitignore` of a new project.
pub fn gitignore() -> (r: &'static str)
    ensures
        r@ == GITIGNORE@,
{
    GITIGNORE
}

/// The manifest text for Mollusk tests of the package `project_name`.
pub open spec fn cargo_toml_mollusk_text(project_name: Seq<char>) -> Seq<char> {
    manifest_text(project_name, CARGO_TOML_MOLLUSK_TAIL@)
}

/// A manifest for the package `project_name` with Mollusk as test framework.
pub fn cargo_toml_mollusk(project_name: &str) -> (r: String)
    ensures
        r@ == cargo_toml_mollusk_text(project_name@),
{
    manifest(project_name, CARGO_TOML_MOLLUSK_TAIL)
}

/// The manifest text for LiteSVM tests of the package `project_name`.
pub open spec fn cargo_toml_litesvm_text(project_name: Seq<char>) -> Seq<char> {
    manifest_text(project_name, CARGO_TOML_LITESVM_TAIL@)
}

/// A manifest for the package `project_name` with LiteSVM as test framework.
pub fn cargo_toml_litesvm(project_name: &str) -> (r: String)
    ensures
        r@ == cargo_toml_litesvm_text(project_name@),
{
    manifest(project_name, CARGO_TOML_LITESVM_TAIL)
}

/// The error definitions of a new project.
pub fn errors_rs() -> (r: &'static str)
    ensures
        r@ == ERRORS_RS@,
{
    ERRORS_RS
}

/// The codama configuration text for the project `project_name`.
pub open spec fn codama_json_text(project_name: Seq<char>) -> Seq<char> {
    spliced(CODAMA_JSON_HEAD@, project_name, CODAMA_JSON_TAIL@)
}

/// The codama configuration that renders a TypeScript client from the IDL
/// of `project_name`.
pub fn codama_json(project_name: &str) -> (r: String)
    ensures
        r@ == codama_json_text(project_name@),
{
    splice(CODAMA_JSON_HEAD, project_name, CODAMA_JSON_TAIL)
}

/// The client package manifest text for the project `project_name`.
pub open spec fn package_json_text(project_name: Seq<char>) -> Seq<char> {
    spliced(PACKAGE_JSON_HEAD@, project_name, PACKAGE_JSON_TAIL@)
}

/// The package manifest of the TypeScript client of `project_name`.
pub fn package_json(project_name: &str) -> (r: String)
    ensures
        r@ == package_json_text(project_name@),
{
    splice(PACKAGE_JSON_HEAD, project_name, PACKAGE_JSON_TAIL)
}

} // verus!
