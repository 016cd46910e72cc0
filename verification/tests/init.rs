use stellar_scaffold::{
    copy_example_contracts, copy_file, default_contract_dir, default_project_name,
    frontend_template, join_path, rename_cargo_toml_remove, update_workspace_cargo_toml, Cmd,
    EmbeddedFileEntry, FileAction, InitError,
};

#[test]
fn workspace_cargo_toml_swaps_sdk_dependency() {
    let manifest = "[workspace]\nmembers = [\"contracts/*\"]\n\n[workspace.dependencies]\nsoroban-sdk = \"20.0.0\"\n";
    let out = update_workspace_cargo_toml(manifest).expect("valid toml must pass");
    let expected = "[workspace]\nmembers = [\"contracts/*\"]\n\n[workspace.dependencies]\nloam-sdk = \"0.6.12\"\nloam-subcontract-core = \"0.7.5\"\n";
    assert_eq!(out, expected);
}

#[test]
fn workspace_cargo_toml_without_sdk_line_is_unchanged() {
    let manifest = "[workspace]\nmembers = [\"contracts/*\"]\n";
    let out = update_workspace_cargo_toml(manifest).expect("valid toml must pass");
    assert_eq!(out, manifest);
}

#[test]
fn workspace_cargo_toml_replaces_every_occurrence() {
    let manifest = "[a]\nsoroban-sdk = \"1.0.0\"\n[b]\nsoroban-sdk = \"2.0.0\"\n";
    let out = update_workspace_cargo_toml(manifest).expect("valid toml must pass");
    assert!(!out.contains("soroban-sdk"));
    assert_eq!(out.matches("loam-sdk = \"0.6.12\"").count(), 2);
    assert_eq!(out.matches("loam-subcontract-core = \"0.7.5\"").count(), 2);
}

#[test]
fn broken_rewrite_is_reported_as_toml_error() {
    // a manifest that stops parsing once the (valid) replacement is spliced
    // into invalid surrounding text
    let manifest = "this is not toml [";
    match update_workspace_cargo_toml(manifest) {
        Err(InitError::TomlParse) => {}
        _ => panic!("expected a toml parse error"),
    }
}

#[test]
fn copy_file_skips_existing_writes_new_and_reports_missing() {
    let existing = vec!["contracts/core/src/lib.rs".to_string()];
    let dir = "contracts/core".to_string();

    let skipped = copy_file(
        &dir,
        &"src/lib.rs".to_string(),
        Some(&b"pub fn f() {}".to_vec()),
        &existing,
    )
    .unwrap();
    match skipped {
        FileAction::SkippedExisting { path } => assert_eq!(path, "contracts/core/src/lib.rs"),
        _ => panic!("an existing file must be skipped, not overwritten"),
    }

    let written = copy_file(
        &dir,
        &"Cargo.toml.remove".to_string(),
        Some(&b"[package]\nname = \"core\"\n".to_vec()),
        &existing,
    )
    .unwrap();
    match written {
        FileAction::WriteFile { path, contents } => {
            assert_eq!(path, "contracts/core/Cargo.toml.remove");
            assert_eq!(contents, "[package]\nname = \"core\"\n");
        }
        _ => panic!("a new file must be written"),
    }

    let missing = copy_file(&dir, &"gone.rs".to_string(), None, &existing).unwrap();
    match missing {
        FileAction::MissingEmbedded { filename } => assert_eq!(filename, "gone.rs"),
        _ => panic!("an absent embedded file is reported, not an error"),
    }

    let invalid = copy_file(
        &dir,
        &"bad.rs".to_string(),
        Some(&vec![0xff, 0xfe, 0x00, 0x01]),
        &existing,
    );
    match invalid {
        Err(InitError::InvalidUtf8 { filename }) => assert_eq!(filename, "bad.rs"),
        _ => panic!("invalid utf-8 must be an error"),
    }
}

#[test]
fn copy_example_contracts_plans_both_examples() {
    let core = vec![
        EmbeddedFileEntry {
            name: "src/lib.rs".to_string(),
            data: Some(b"// core".to_vec()),
        },
        EmbeddedFileEntry {
            name: "Cargo.toml.remove".to_string(),
            data: Some(b"[package]\n".to_vec()),
        },
    ];
    let status_message = vec![EmbeddedFileEntry {
        name: "src/lib.rs".to_string(),
        data: Some(b"// status_message".to_vec()),
    }];
    let existing = vec!["proj/contracts/core/src/lib.rs".to_string()];
    let actions = copy_example_contracts(&"proj".to_string(), &core, &status_message, &existing)
        .expect("all files decode");
    assert_eq!(actions.len(), 3);
    match &actions[0] {
        FileAction::SkippedExisting { path } => {
            assert_eq!(path, "proj/contracts/core/src/lib.rs")
        }
        _ => panic!("the existing core file must be skipped"),
    }
    match &actions[1] {
        FileAction::WriteFile { path, contents } => {
            assert_eq!(path, "proj/contracts/core/Cargo.toml.remove");
            assert_eq!(contents, "[package]\n");
        }
        _ => panic!("the core manifest must be written"),
    }
    match &actions[2] {
        FileAction::WriteFile { path, contents } => {
            assert_eq!(path, "proj/contracts/status_message/src/lib.rs");
            assert_eq!(contents, "// status_message");
        }
        _ => panic!("the status_message file must be written"),
    }
}

#[test]
fn copy_example_contracts_stops_at_undecodable_file() {
    let core = vec![EmbeddedFileEntry {
        name: "bad.bin".to_string(),
        data: Some(vec![0xc0, 0x80]),
    }];
    let r = copy_example_contracts(&"proj".to_string(), &core, &vec![], &vec![]);
    match r {
        Err(InitError::InvalidUtf8 { filename }) => assert_eq!(filename, "bad.bin"),
        _ => panic!("an undecodable embedded file must fail the copy"),
    }
}

#[test]
fn init_paths_and_defaults() {
    let cmd = Cmd {
        project_path: "/tmp/proj".to_string(),
        name: default_project_name().to_string(),
    };
    assert_eq!(cmd.name, "loam-example");
    assert_eq!(
        frontend_template(),
        "https://github.com/loambuild/frontend"
    );
    assert_eq!(
        default_contract_dir(&cmd.project_path),
        "/tmp/proj/contracts/hello_world/"
    );
    assert_eq!(
        join_path(&"a/b".to_string(), &"c.rs".to_string()),
        "a/b/c.rs"
    );
    let (from, to) = rename_cargo_toml_remove(&cmd.project_path, &"core".to_string());
    assert_eq!(from, "/tmp/proj/contracts/core/Cargo.toml.remove");
    assert_eq!(to, "/tmp/proj/contracts/core/Cargo.toml");
    let (from, to) = rename_cargo_toml_remove(&cmd.project_path, &"status_message".to_string());
    assert_eq!(from, "/tmp/proj/contracts/status_message/Cargo.toml.remove");
    assert_eq!(to, "/tmp/proj/contracts/status_message/Cargo.toml");
}
