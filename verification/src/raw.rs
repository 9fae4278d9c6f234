use vstd::prelude::*;
use crate::errors::{DefinitionError, SchemaIssue, SchemaIssueView};
use crate::fs_ops::read_to_string_ext;
use crate::toml_model::{TomlVal, doc_field, parse_toml_ext, toml_as_str, toml_get, toml_parse};

verus! {

/// An untyped-but-schema-checked definition record, exactly as it stands in
/// a definition file: a chip query, a probe selector string, and an optional
/// flash-test-binary path. It lives only between file read and resolution.
pub struct RawDutDefinition {
    pub chip: String,
    pub probe_selector: String,
    pub flash_test_binary: Option<String>,
}

/// The mathematical shape of a `RawDutDefinition`.
pub struct RawDutDefinitionView {
    pub chip: Seq<char>,
    pub probe_selector: Seq<char>,
    pub flash_test_binary: Option<Seq<char>>,
}

impl View for RawDutDefinition {
    type V = RawDutDefinitionView;

    open spec fn view(&self) -> RawDutDefinitionView {
        RawDutDefinitionView {
            chip: self.chip@,
            probe_selector: self.probe_selector@,
            flash_test_binary: self.flash_test_binary.deep_view(),
        }
    }
}

/// What the three-field schema makes of a parsed document: `chip` and
/// `probe_selector` must be present strings, `flash_test_binary` may be
/// absent but must be a string where present, and unknown fields are
/// ignored. A document that is no table at all has no `chip` field.
pub open spec fn schema_of_doc(doc: TomlVal) -> Result<RawDutDefinitionView, SchemaIssueView> {
    match doc_field(doc, "chip"@) {
        None => Err(SchemaIssueView::MissingField("chip"@)),
        Some(TomlVal::VStr(chip)) => match doc_field(doc, "probe_selector"@) {
            None => Err(SchemaIssueView::MissingField("probe_selector"@)),
            Some(TomlVal::VStr(sel)) => match doc_field(doc, "flash_test_binary"@) {
                None => Ok(
                    RawDutDefinitionView {
                        chip,
                        probe_selector: sel,
                        flash_test_binary: None,
                    },
                ),
                Some(TomlVal::VStr(bin)) => Ok(
                    RawDutDefinitionView {
                        chip,
                        probe_selector: sel,
                        flash_test_binary: Some(bin),
                    },
                ),
                Some(_) => Err(SchemaIssueView::WrongFieldType("flash_test_binary"@)),
            },
            Some(_) => Err(SchemaIssueView::WrongFieldType("probe_selector"@)),
        },
        Some(_) => Err(SchemaIssueView::WrongFieldType("chip"@)),
    }
}

/// The field names the schema reads.
pub open spec fn recognized_field(k: Seq<char>) -> bool {
    k == "chip"@ || k == "probe_selector"@ || k == "flash_test_binary"@
}

/// The schema is permissive: its verdict on a document depends on the
/// recognized fields alone, so any unknown additional field is ignored.
pub proof fn lemma_schema_ignores_unknown_fields(
    m1: Map<Seq<char>, TomlVal>,
    m2: Map<Seq<char>, TomlVal>,
)
    requires
        forall|k: Seq<char>|
            recognized_field(k) ==> #[trigger] m1.contains_key(k) == m2.contains_key(k),
        forall|k: Seq<char>|
            recognized_field(k) && m1.contains_key(k) ==> #[trigger] m1[k] == m2[k],
    ensures
        schema_of_doc(TomlVal::VTable(m1)) == schema_of_doc(TomlVal::VTable(m2)),
{
}

/// What parsing a definition file's text yields: a syntax failure where the
/// TOML grammar rejects the text, otherwise the schema's verdict on the
/// parsed document.
pub open spec fn parse_result_spec(content: Seq<char>) -> Result<
    RawDutDefinitionView,
    SchemaIssueView,
> {
    match toml_parse(content) {
        None => Err(SchemaIssueView::Syntax),
        Some(doc) => schema_of_doc(doc),
    }
}

/// Parses a definition file's text into a raw definition, checking the
/// three-field schema.
pub fn parse_raw_definition(content: &str) -> (r: Result<RawDutDefinition, DefinitionError>)
    ensures
        r matches Ok(raw) ==> parse_result_spec(content@) == Ok::<_, SchemaIssueView>(raw@),
        r matches Err(e) ==> (e matches DefinitionError::SchemaError { issue }
            && parse_result_spec(content@) == Err::<RawDutDefinitionView, _>(issue@)),
{
    let value = match parse_toml_ext(content) {
        Ok(v) => v,
        Err(message) => {
            return Err(DefinitionError::SchemaError { issue: SchemaIssue::Syntax { message } });
        },
    };
    let chip = match toml_get(&value, "chip") {
        None => {
            return Err(
                DefinitionError::SchemaError {
                    issue: SchemaIssue::MissingField { field: "chip".to_owned() },
                },
            );
        },
        Some(x) => match toml_as_str(x) {
            None => {
                return Err(
                    DefinitionError::SchemaError {
                        issue: SchemaIssue::WrongFieldType { field: "chip".to_owned() },
                    },
                );
            },
            Some(s) => s.to_owned(),
        },
    };
    let probe_selector = match toml_get(&value, "probe_selector") {
        None => {
            return Err(
                DefinitionError::SchemaError {
                    issue: SchemaIssue::MissingField { field: "probe_selector".to_owned() },
                },
            );
        },
        Some(x) => match toml_as_str(x) {
            None => {
                return Err(
                    DefinitionError::SchemaError {
                        issue: SchemaIssue::WrongFieldType { field: "probe_selector".to_owned() },
                    },
                );
            },
            Some(s) => s.to_owned(),
        },
    };
    let flash_test_binary = match toml_get(&value, "flash_test_binary") {
        None => None,
        Some(x) => match toml_as_str(x) {
            None => {
                return Err(
                    DefinitionError::SchemaError {
                        issue: SchemaIssue::WrongFieldType { field: "flash_test_binary".to_owned() },
                    },
                );
            },
            Some(s) => Some(s.to_owned()),
        },
    };
    Ok(RawDutDefinition { chip, probe_selector, flash_test_binary })
}

impl RawDutDefinition {
    /// Reads one definition file and checks it against the schema. Fails
    /// with `IoError` where the file cannot be read as text, and with
    /// `SchemaError` where its content does not match the schema.
    pub fn from_file(file: &str) -> (r: Result<RawDutDefinition, DefinitionError>)
        ensures
            r matches Err(e) ==> match e {
                DefinitionError::IoError { path, .. } => path@ == file@,
                DefinitionError::SchemaError { .. } => true,
                _ => false,
            },
    {
        let content = match read_to_string_ext(file) {
            Ok(c) => c,
            Err(message) => {
                return Err(DefinitionError::IoError { path: file.to_owned(), message });
            },
        };
        parse_raw_definition(content.as_str())
    }
}

} // verus!
