use dut_definition::{parse_raw_definition, DefinitionError, SchemaIssue};

#[test]
fn parses_full_definition() {
    let raw = parse_raw_definition(
        "chip = \"Cortex-M7\"\nprobe_selector = \"0483:3748\"\nflash_test_binary = \"fw.elf\"\n",
    )
    .unwrap();
    assert_eq!(raw.chip, "Cortex-M7");
    assert_eq!(raw.probe_selector, "0483:3748");
    assert_eq!(raw.flash_test_binary.as_deref(), Some("fw.elf"));
}

#[test]
fn flash_test_binary_is_optional() {
    let raw =
        parse_raw_definition("chip = \"Cortex-M7\"\nprobe_selector = \"0483:3748\"\n").unwrap();
    assert!(raw.flash_test_binary.is_none());
}

#[test]
fn unknown_fields_are_ignored() {
    let raw = parse_raw_definition(
        "chip = \"a\"\nprobe_selector = \"b\"\nnote = \"extra\"\n[extra_table]\nn = 1\n",
    )
    .unwrap();
    assert_eq!(raw.chip, "a");
    assert_eq!(raw.probe_selector, "b");
}

#[test]
fn missing_chip_is_a_schema_error() {
    match parse_raw_definition("probe_selector = \"0483:3748\"\n") {
        Err(DefinitionError::SchemaError { issue: SchemaIssue::MissingField { field } }) => {
            assert_eq!(field, "chip")
        }
        _ => panic!("expected MissingField(chip)"),
    }
}

#[test]
fn missing_probe_selector_is_a_schema_error() {
    match parse_raw_definition("chip = \"Cortex-M7\"\n") {
        Err(DefinitionError::SchemaError { issue: SchemaIssue::MissingField { field } }) => {
            assert_eq!(field, "probe_selector")
        }
        _ => panic!("expected MissingField(probe_selector)"),
    }
}

#[test]
fn non_string_chip_is_a_schema_error() {
    match parse_raw_definition("chip = 3\nprobe_selector = \"0483:3748\"\n") {
        Err(DefinitionError::SchemaError { issue: SchemaIssue::WrongFieldType { field } }) => {
            assert_eq!(field, "chip")
        }
        _ => panic!("expected WrongFieldType(chip)"),
    }
}

#[test]
fn non_string_flash_test_binary_is_a_schema_error() {
    match parse_raw_definition(
        "chip = \"a\"\nprobe_selector = \"b\"\nflash_test_binary = false\n",
    ) {
        Err(DefinitionError::SchemaError { issue: SchemaIssue::WrongFieldType { field } }) => {
            assert_eq!(field, "flash_test_binary")
        }
        _ => panic!("expected WrongFieldType(flash_test_binary)"),
    }
}

#[test]
fn malformed_toml_is_a_syntax_error() {
    match parse_raw_definition("chip = = \"a\"") {
        Err(DefinitionError::SchemaError { issue: SchemaIssue::Syntax { .. } }) => {}
        _ => panic!("expected Syntax"),
    }
}
