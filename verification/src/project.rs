//! The files of a new project.
//!
//! Creating a project is writing a fixed set of directories and files under the project's
//! name. What is written is decided here, as a plan; carrying the plan out on disk is left
//! to the caller.

use vstd::prelude::*;
use vstd::string::StringExecFns;

verus! {

/// The toolchain file of a project.
pub const RUST_TOOLCHAIN: &'static str =
    "[toolchain]\nchannel = \"nightly-2023-09-22\"\ntargets = [\"riscv32i-unknown-none-elf\"]\n";

/// The host manifest up to the project's name.
pub const HOST_CARGO_HEAD: &'static str = "[package]\nname = \"";

/// The host manifest after the project's name.
pub const HOST_CARGO_TAIL: &'static str =
    "\"\nversion = \"0.1.0\"\nedition = \"2021\"\n\n[workspace]\nmembers = [\"guest\"]\n\n[profile.release]\ndebug = 1\ncodegen-units = 1\nlto = \"fat\"\n\n[dependencies]\njolt = { package = \"jolt-sdk\", git = \"https://github.com/a16z/jolt\", features = [\"host\"] }\nguest = { path = \"./guest\" }\n\n[patch.crates-io]\nark-ff = { git = \"https://github.com/a16z/arkworks-algebra\", branch = \"optimize/field-from-u64\" }\nark-ec = { git = \"https://github.com/a16z/arkworks-algebra\", branch = \"optimize/field-from-u64\" }\nark-serialize = { git = \"https://github.com/a16z/arkworks-algebra\", branch = \"optimize/field-from-u64\" }\n";

/// The host program of a project.
pub const HOST_MAIN: &'static str =
    "pub fn main() {\n    let (prove_fib, verify_fib) = guest::build_fib();\n\n    let (output, proof) = prove_fib(50);\n    let is_valid = verify_fib(proof);\n\n    println!(\"output: {}\", output);\n    println!(\"valid: {}\", is_valid);\n}\n";

/// What a project keeps out of version control.
pub const GITIGNORE: &'static str = "target";

/// The guest manifest of a project.
pub const GUEST_CARGO: &'static str =
    "[package]\nname = \"guest\"\nversion = \"0.1.0\"\nedition = \"2021\"\n\n[[bin]]\nname = \"guest\"\npath = \"./src/lib.rs\"\n\n[features]\nguest = []\n\n[dependencies]\njolt = { package = \"jolt-sdk\", git = \"https://github.com/a16z/jolt\" }\n";

/// The guest library of a project.
pub const GUEST_LIB: &'static str =
    "#![cfg_attr(feature = \"guest\", no_std)]\n#![no_main]\n\n#[jolt::provable]\nfn fib(n: u32) -> u128 {\n    let mut a: u128 = 0;\n    let mut b: u128 = 1;\n    let mut sum: u128;\n    for _ in 1..n {\n        sum = a + b;\n        a = b;\n        b = sum;\n    }\n\n    b\n}\n";

/// One file to write: where, and what.
#[derive(Clone, Debug, PartialEq, Eq)]
pub struct ProjectFile {
    pub path: String,
    pub contents: String,
}

/// Everything that creating a project writes, in the order in which it is written: the
/// directories first, then the files of the host, then those of the guest.
#[derive(Clone, Debug, PartialEq, Eq)]
pub struct ProjectPlan {
    pub directories: Vec<String>,
    pub host_files: Vec<ProjectFile>,
    pub guest_files: Vec<ProjectFile>,
}

/// Whether `file` is the file at `path` with the contents `contents`.
pub open spec fn is_file(file: ProjectFile, path: Seq<char>, contents: Seq<char>) -> bool {
    file.path@ == path && file.contents@ == contents
}

/// The path `rest` below the project `name`.
fn below(name: &str, rest: &str) -> (path: String)
    ensures
        path@ == name@ + rest@,
{
    let mut path = String::from_str(name);
    path.append(rest);
    path
}

/// The file at `rest` below the project `name`, with the contents `contents`.
fn file_below(name: &str, rest: &str, contents: &str) -> (file: ProjectFile)
    ensures
        is_file(file, name@ + rest@, contents@),
{
    ProjectFile { path: below(name, rest), contents: String::from_str(contents) }
}

/// The directories of the project `name`: its root, and below it the sources of the host,
/// the guest, and the sources of the guest. A parent comes before its children.
pub fn create_folder_structure(name: &str) -> (directories: Vec<String>)
    ensures
        directories@.len() == 4,
        directories@[0]@ == name@,
        directories@[1]@ == name@ + "/src"@,
        directories@[2]@ == name@ + "/guest"@,
        directories@[3]@ == name@ + "/guest/src"@,
{
    let mut directories: Vec<String> = Vec::new();
    directories.push(String::from_str(name));
    directories.push(below(name, "/src"));
    directories.push(below(name, "/guest"));
    directories.push(below(name, "/guest/src"));
    directories
}

/// The host's manifest for the project `name`: the template with the name in its place.
pub fn host_manifest(name: &str) -> (manifest: String)
    ensures
        manifest@ == HOST_CARGO_HEAD@ + name@ + HOST_CARGO_TAIL@,
{
    let mut manifest = String::from_str(HOST_CARGO_HEAD);
    manifest.append(name);
    manifest.append(HOST_CARGO_TAIL);
    manifest
}

/// The files of the host of the project `name`: the toolchain file, the ignore file, the
/// manifest, which carries the project's name, and the program.
pub fn create_host_files(name: &str) -> (files: Vec<ProjectFile>)
    ensures
        files@.len() == 4,
        is_file(files@[0], name@ + "/rust-toolchain.toml"@, RUST_TOOLCHAIN@),
        is_file(files@[1], name@ + "/.gitignore"@, GITIGNORE@),
        is_file(files@[2], name@ + "/Cargo.toml"@, HOST_CARGO_HEAD@ + name@ + HOST_CARGO_TAIL@),
        is_file(files@[3], name@ + "/src/main.rs"@, HOST_MAIN@),
{
    let mut files: Vec<ProjectFile> = Vec::new();
    files.push(file_below(name, "/rust-toolchain.toml", RUST_TOOLCHAIN));
    files.push(file_below(name, "/.gitignore", GITIGNORE));
    files.push(ProjectFile { path: below(name, "/Cargo.toml"), contents: host_manifest(name) });
    files.push(file_below(name, "/src/main.rs", HOST_MAIN));
    files
}

/// The files of the guest of the project `name`: its manifest and its library.
pub fn create_guest_files(name: &str) -> (files: Vec<ProjectFile>)
    ensures
        files@.len() == 2,
        is_file(files@[0], name@ + "/guest/Cargo.toml"@, GUEST_CARGO@),
        is_file(files@[1], name@ + "/guest/src/lib.rs"@, GUEST_LIB@),
{
    let mut files: Vec<ProjectFile> = Vec::new();
    files.push(file_below(name, "/guest/Cargo.toml", GUEST_CARGO));
    files.push(file_below(name, "/guest/src/lib.rs", GUEST_LIB));
    files
}

/// Whether `plan` is what creating the project `name` writes.
pub open spec fn is_plan_of(plan: ProjectPlan, name: Seq<char>) -> bool {
    &&& plan.directories@.len() == 4
    &&& plan.directories@[0]@ == name
    &&& plan.directories@[1]@ == name + "/src"@
    &&& plan.directories@[2]@ == name + "/guest"@
    &&& plan.directories@[3]@ == name + "/guest/src"@
    &&& plan.host_files@.len() == 4
    &&& is_file(plan.host_files@[0], name + "/rust-toolchain.toml"@, RUST_TOOLCHAIN@)
    &&& is_file(plan.host_files@[1], name + "/.gitignore"@, GITIGNORE@)
    &&& is_file(
        plan.host_files@[2],
        name + "/Cargo.toml"@,
        HOST_CARGO_HEAD@ + name + HOST_CARGO_TAIL@,
    )
    &&& is_file(plan.host_files@[3], name + "/src/main.rs"@, HOST_MAIN@)
    &&& plan.guest_files@.len() == 2
    &&& is_file(plan.guest_files@[0], name + "/guest/Cargo.toml"@, GUEST_CARGO@)
    &&& is_file(plan.guest_files@[1], name + "/guest/src/lib.rs"@, GUEST_LIB@)
}

/// What creating the project `name` writes.
pub fn create_project(name: String) -> (plan: ProjectPlan)
    ensures
        is_plan_of(plan, name@),
{
    ProjectPlan {
        directories: create_folder_structure(name.as_str()),
        host_files: create_host_files(name.as_str()),
        guest_files: create_guest_files(name.as_str()),
    }
}

} // verus!
