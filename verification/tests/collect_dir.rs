use dut_definition::definition::resolve_entries;
use dut_definition::fs_ops::DirEntryItem;
use dut_definition::path_logic::is_toml_file_name;
use dut_definition::{CollectError, DefinitionError, DefinitionSource, DutDefinition};
use std::path::Path;

const VALID: &str = "chip = \"Cortex-M7\"\nprobe_selector = \"0483:3748\"\n";

fn write_file(dir: &Path, name: &str, content: &str) -> String {
    let path = dir.join(name);
    fs_err::write(&path, content).unwrap();
    path.to_str().unwrap().to_string()
}

#[test]
fn collect_on_regular_file_fails_with_not_a_directory() {
    let tmp = tempfile::tempdir().unwrap();
    let file = write_file(tmp.path(), "plain.toml", VALID);
    match DutDefinition::collect(&file) {
        Err(CollectError::NotADirectory { path }) => assert_eq!(path, file),
        _ => panic!("expected NotADirectory"),
    }
}

#[test]
fn collect_ignores_files_without_the_toml_extension() {
    let tmp = tempfile::tempdir().unwrap();
    write_file(tmp.path(), "readme.txt", "not a definition");
    write_file(tmp.path(), "notes.md", "also not one");
    // A bare `.toml` name is a hidden file without an extension: skipped too,
    // so its invalid content must never be parsed.
    write_file(tmp.path(), ".toml", "chip = = broken");
    let defs = DutDefinition::collect(tmp.path().to_str().unwrap()).unwrap();
    assert!(defs.is_empty());
}

#[test]
fn collect_skips_subdirectories_without_the_extension() {
    let tmp = tempfile::tempdir().unwrap();
    fs_err::create_dir(tmp.path().join("auxiliary")).unwrap();
    let defs = DutDefinition::collect(tmp.path().to_str().unwrap()).unwrap();
    assert!(defs.is_empty());
}

#[test]
fn subdirectory_with_the_extension_fails_as_unreadable() {
    // The filter looks at names only, as the extension rule says: an entry
    // named like a definition file is read, and reading a directory fails.
    let tmp = tempfile::tempdir().unwrap();
    let sub = tmp.path().join("odd.toml");
    fs_err::create_dir(&sub).unwrap();
    match DutDefinition::collect(tmp.path().to_str().unwrap()) {
        Err(CollectError::InFile { path, error }) => {
            assert_eq!(path, sub.to_str().unwrap());
            assert!(matches!(error, DefinitionError::IoError { .. }));
        }
        _ => panic!("expected InFile with an IoError"),
    }
}

#[test]
fn collect_returns_one_definition_per_valid_file() {
    let tmp = tempfile::tempdir().unwrap();
    let mut expected = vec![
        write_file(tmp.path(), "a.toml", VALID),
        write_file(tmp.path(), "b.toml", VALID),
        write_file(tmp.path(), "c.toml", VALID),
    ];
    write_file(tmp.path(), "readme.txt", "ignored");
    let defs = DutDefinition::collect(tmp.path().to_str().unwrap()).unwrap();
    assert_eq!(defs.len(), 3);
    let mut sources: Vec<String> = defs
        .iter()
        .map(|d| match &d.source {
            DefinitionSource::File(p) => p.clone(),
            DefinitionSource::Cli => panic!("collected definitions come from files"),
        })
        .collect();
    sources.sort();
    expected.sort();
    assert_eq!(sources, expected);
}

#[test]
fn one_invalid_file_aborts_the_whole_collection() {
    let tmp = tempfile::tempdir().unwrap();
    write_file(tmp.path(), "good.toml", VALID);
    let bad = write_file(tmp.path(), "bad.toml", "probe_selector = \"0483:3748\"\n");
    match DutDefinition::collect(tmp.path().to_str().unwrap()) {
        Err(CollectError::InFile { path, error }) => {
            assert_eq!(path, bad);
            assert!(matches!(
                error,
                DefinitionError::SchemaError { .. }
            ));
        }
        _ => panic!("expected InFile: no partial result is allowed"),
    }
}

#[test]
fn relative_flash_binary_resolves_against_the_definition_directory() {
    let tmp = tempfile::tempdir().unwrap();
    fs_err::create_dir(tmp.path().join("bin")).unwrap();
    fs_err::write(tmp.path().join("bin").join("fw.elf"), b"elf").unwrap();
    let def = write_file(
        tmp.path(),
        "dut.toml",
        "chip = \"Cortex-M7\"\nprobe_selector = \"0483:3748\"\nflash_test_binary = \"bin/fw.elf\"\n",
    );
    let registry = probe_rs::config::Registry::from_builtin_families();
    let d = DutDefinition::from_file(&def, &registry).unwrap();
    let expected = fs_err::canonicalize(tmp.path().join("bin").join("fw.elf")).unwrap();
    assert_eq!(d.flash_test_binary.as_deref(), expected.to_str());
}

#[test]
fn missing_relative_flash_binary_is_an_io_error() {
    let tmp = tempfile::tempdir().unwrap();
    let def = write_file(
        tmp.path(),
        "dut.toml",
        "chip = \"Cortex-M7\"\nprobe_selector = \"0483:3748\"\nflash_test_binary = \"bin/fw.elf\"\n",
    );
    let registry = probe_rs::config::Registry::from_builtin_families();
    match DutDefinition::from_file(&def, &registry) {
        Err(DefinitionError::IoError { path, .. }) => {
            let expected = tmp.path().join("bin").join("fw.elf");
            assert_eq!(path, expected.to_str().unwrap());
        }
        _ => panic!("expected IoError for a missing flash-test binary"),
    }
}

#[test]
fn absolute_flash_binary_must_exist() {
    let tmp = tempfile::tempdir().unwrap();
    let missing = tmp.path().join("nowhere").join("fw.elf");
    let content = format!(
        "chip = \"Cortex-M7\"\nprobe_selector = \"0483:3748\"\nflash_test_binary = \"{}\"\n",
        missing.to_str().unwrap()
    );
    let def = write_file(tmp.path(), "dut.toml", &content);
    let registry = probe_rs::config::Registry::from_builtin_families();
    match DutDefinition::from_file(&def, &registry) {
        Err(DefinitionError::IoError { path, .. }) => {
            assert_eq!(path, missing.to_str().unwrap())
        }
        _ => panic!("expected IoError for a missing absolute flash-test binary"),
    }
}

#[test]
fn absolute_flash_binary_is_canonicalized() {
    let tmp = tempfile::tempdir().unwrap();
    fs_err::write(tmp.path().join("fw.elf"), b"elf").unwrap();
    // A dot component survives joining but not canonicalization, so the
    // resolved path proves canonicalization really ran.
    let absolute = tmp.path().join(".").join("fw.elf");
    let content = format!(
        "chip = \"Cortex-M7\"\nprobe_selector = \"0483:3748\"\nflash_test_binary = \"{}\"\n",
        absolute.to_str().unwrap()
    );
    let def = write_file(tmp.path(), "dut.toml", &content);
    let registry = probe_rs::config::Registry::from_builtin_families();
    let d = DutDefinition::from_file(&def, &registry).unwrap();
    let expected = fs_err::canonicalize(tmp.path().join("fw.elf")).unwrap();
    assert_eq!(d.flash_test_binary.as_deref(), expected.to_str());
    assert_ne!(d.flash_test_binary.as_deref(), absolute.to_str());
}

#[test]
fn unreadable_definition_file_is_an_io_error() {
    let tmp = tempfile::tempdir().unwrap();
    let missing = tmp.path().join("ghost.toml");
    let registry = probe_rs::config::Registry::from_builtin_families();
    match DutDefinition::from_file(missing.to_str().unwrap(), &registry) {
        Err(DefinitionError::IoError { path, .. }) => {
            assert_eq!(path, missing.to_str().unwrap())
        }
        _ => panic!("expected IoError for an unreadable file"),
    }
}

#[test]
fn resolve_entries_skips_entries_without_the_extension() {
    let registry = probe_rs::config::Registry::from_builtin_families();
    // The paths do not exist: were any of these entries touched, resolution
    // would fail instead of returning the empty batch.
    let entries = vec![
        DirEntryItem {
            path: "/definitely/missing/readme.txt".to_string(),
            file_name: "readme.txt".to_string(),
        },
        DirEntryItem {
            path: "/definitely/missing/.toml".to_string(),
            file_name: ".toml".to_string(),
        },
    ];
    let defs = resolve_entries(&entries, &registry).unwrap();
    assert!(defs.is_empty());
}

#[test]
fn resolve_entries_names_the_failing_entry() {
    let registry = probe_rs::config::Registry::from_builtin_families();
    let entries = vec![DirEntryItem {
        path: "/definitely/missing/dut.toml".to_string(),
        file_name: "dut.toml".to_string(),
    }];
    match resolve_entries(&entries, &registry) {
        Err(CollectError::InFile { path, error }) => {
            assert_eq!(path, "/definitely/missing/dut.toml");
            assert!(matches!(error, DefinitionError::IoError { .. }));
        }
        _ => panic!("expected InFile for the unreadable definition entry"),
    }
}

#[test]
fn toml_extension_rule() {
    assert!(is_toml_file_name("a.toml"));
    assert!(is_toml_file_name("x.y.toml"));
    assert!(is_toml_file_name("..toml"));
    assert!(!is_toml_file_name(".toml"));
    assert!(!is_toml_file_name("toml"));
    assert!(!is_toml_file_name("a.TOML"));
    assert!(!is_toml_file_name("readme.txt"));
    assert!(!is_toml_file_name(""));
}
