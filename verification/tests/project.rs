use jolt::project::{
    create_folder_structure, create_guest_files, create_host_files, create_project,
    host_manifest, ProjectFile, GITIGNORE, GUEST_CARGO, GUEST_LIB, HOST_CARGO_HEAD,
    HOST_CARGO_TAIL, HOST_MAIN, RUST_TOOLCHAIN,
};

fn file(path: &str, contents: &str) -> ProjectFile {
    ProjectFile { path: path.to_string(), contents: contents.to_string() }
}

#[test]
fn folders_are_the_root_and_three_below() {
    assert_eq!(create_folder_structure("demo"), vec!["demo", "demo/src", "demo/guest", "demo/guest/src"]);
}

#[test]
fn host_manifest_carries_the_name() {
    let template = format!("{}{}{}", HOST_CARGO_HEAD, "{NAME}", HOST_CARGO_TAIL);
    assert_eq!(host_manifest("demo"), template.replace("{NAME}", "demo"));
    assert!(host_manifest("demo").starts_with("[package]\nname = \"demo\"\nversion = \"0.1.0\"\n"));
    assert!(host_manifest("demo").ends_with("branch = \"optimize/field-from-u64\" }\n"));
}

#[test]
fn host_files_are_four() {
    assert_eq!(
        create_host_files("demo"),
        vec![
            file("demo/rust-toolchain.toml", RUST_TOOLCHAIN),
            file("demo/.gitignore", "target"),
            file("demo/Cargo.toml", &host_manifest("demo")),
            file("demo/src/main.rs", HOST_MAIN),
        ]
    );
}

#[test]
fn guest_files_are_two() {
    assert_eq!(
        create_guest_files("demo"),
        vec![file("demo/guest/Cargo.toml", GUEST_CARGO), file("demo/guest/src/lib.rs", GUEST_LIB)]
    );
}

#[test]
fn project_is_folders_then_host_then_guest() {
    let plan = create_project("demo".to_string());
    assert_eq!(plan.directories, create_folder_structure("demo"));
    assert_eq!(plan.host_files, create_host_files("demo"));
    assert_eq!(plan.guest_files, create_guest_files("demo"));
}

#[test]
fn templates_read_as_written() {
    assert_eq!(GITIGNORE, "target");
    assert_eq!(
        RUST_TOOLCHAIN,
        "[toolchain]\nchannel = \"nightly-2023-09-22\"\ntargets = [\"riscv32i-unknown-none-elf\"]\n"
    );
    assert!(HOST_MAIN.contains("let (output, proof) = prove_fib(50);"));
    assert!(GUEST_CARGO.contains("[[bin]]\nname = \"guest\"\npath = \"./src/lib.rs\"\n"));
    assert!(GUEST_LIB.starts_with("#![cfg_attr(feature = \"guest\", no_std)]\n#![no_main]\n"));
    assert!(GUEST_LIB.ends_with("    b\n}\n"));
}
