//! Resolution of device-under-test (DUT) definitions for a hardware
//! smoke-testing harness: a directory of declarative TOML definition files is
//! turned into fully validated in-memory descriptors, each naming an exact
//! chip target, a parsed probe selector, and optionally the canonicalized
//! absolute path of a flash-test binary.

pub mod chip_db;
pub mod definition;
pub mod errors;
pub mod fs_ops;
pub mod path_logic;
pub mod raw;
pub mod selector;
pub mod toml_model;

pub use chip_db::{ChipTarget, disambiguate_chip};
pub use definition::{DefinitionSource, DutDefinition};
pub use errors::{CollectError, DefinitionError, OpenError, SchemaIssue};
pub use raw::{RawDutDefinition, parse_raw_definition};
pub use selector::ProbeSelector;
