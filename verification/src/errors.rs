use vstd::prelude::*;
use crate::selector::ProbeSelector;

verus! {

/// What went wrong while checking a definition file against the
/// three-field schema (`chip`, `probe_selector`, `flash_test_binary`).
#[derive(Debug)]
pub enum SchemaIssue {
    /// The file is not well-formed TOML; the message comes from the parser.
    Syntax { message: String },
    /// A required field is absent.
    MissingField { field: String },
    /// A field is present but does not hold a string.
    WrongFieldType { field: String },
}

/// The mathematical shape of a `SchemaIssue`: the parser's message is not
/// part of the model, the offending field name is.
pub enum SchemaIssueView {
    Syntax,
    MissingField(Seq<char>),
    WrongFieldType(Seq<char>),
}

impl View for SchemaIssue {
    type V = SchemaIssueView;

    open spec fn view(&self) -> SchemaIssueView {
        match self {
            SchemaIssue::Syntax { .. } => SchemaIssueView::Syntax,
            SchemaIssue::MissingField { field } => SchemaIssueView::MissingField(field@),
            SchemaIssue::WrongFieldType { field } => SchemaIssueView::WrongFieldType(field@),
        }
    }
}

/// Why a single definition could not be resolved.
#[derive(Debug)]
pub enum DefinitionError {
    /// A file could not be read, or a referenced path could not be
    /// canonicalized (for instance because it does not exist).
    IoError { path: String, message: String },
    /// The definition file does not match the expected schema.
    SchemaError { issue: SchemaIssue },
    /// The probe selector string violates the selector grammar.
    InvalidProbeSelector { selector: String },
    /// The chip query matched no known chip.
    ChipNotFound { query: String },
    /// The chip query matched more than one chip; every candidate name is
    /// enumerated so the author of the definition can pick an exact one.
    AmbiguousChipDefinition { query: String, candidates: Vec<String> },
}

/// Why collecting a whole directory of definitions failed.
#[derive(Debug)]
pub enum CollectError {
    /// The given path is not a directory.
    NotADirectory { path: String },
    /// The directory could not be enumerated.
    DirectoryRead { path: String, message: String },
    /// One definition file failed; `path` identifies it. A single bad file
    /// fails the whole batch: no partial result is ever returned.
    InFile { path: String, error: DefinitionError },
}

/// Why a probe could not be opened; carries the selector that was tried.
#[derive(Debug)]
pub struct OpenError {
    pub selector: ProbeSelector,
    pub message: String,
}

} // verus!
