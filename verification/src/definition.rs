use vstd::prelude::*;
use crate::chip_db::{
    ChipTarget, builtin_registry, chip_matches, disambiguate_chip, get_target_ext,
    search_chips_ext, target_found,
};
use crate::errors::{CollectError, DefinitionError, OpenError};
use crate::fs_ops::{
    DirEntryItem, canonicalize_ext, is_dir_ext, path_is_absolute_ext, path_parent_ext,
    read_dir_ext,
};
use crate::path_logic::{
    flash_binary_candidate, flash_candidate, has_toml_extension, is_toml_file_name,
    lemma_flash_candidate_ends_with, seq_ends_with,
};
use crate::raw::RawDutDefinition;
use crate::selector::{ProbeSelector, open_probe_ext, parse_selector_ext, selector_parse};

verus! {

/// Where a definition came from: a file on disk, or the command line.
pub enum DefinitionSource {
    File(String),
    Cli,
}

/// A fully resolved device-under-test definition: an exactly identified
/// chip, a parsed probe selector, and optionally the canonicalized absolute
/// path of a binary used to verify flashing.
pub struct DutDefinition {
    pub chip: ChipTarget,
    pub probe_selector: ProbeSelector,
    pub flash_test_binary: Option<String>,
    pub source: DefinitionSource,
}

/// The base directory for a relative flash-test-binary path, as a sequence:
/// empty where the definition has no file directory.
pub open spec fn base_dir_view(base_dir: Option<String>) -> Seq<char> {
    match base_dir {
        Some(d) => d@,
        None => Seq::<char>::empty(),
    }
}

/// Resolves one raw definition against the chip database, with `base_dir`
/// (the directory of the defining file, where there is one) as the base for
/// a relative flash-test-binary path.
fn resolve_raw(
    raw: RawDutDefinition,
    base_dir: Option<String>,
    source: DefinitionSource,
    registry: &probe_rs::config::Registry,
) -> (r: Result<DutDefinition, DefinitionError>)
    ensures
        selector_parse(raw.probe_selector@) is None ==> (r matches Err(e)
            && e matches DefinitionError::InvalidProbeSelector { selector } && selector@
            == raw.probe_selector@),
        (selector_parse(raw.probe_selector@) is Some && chip_matches(*registry, raw.chip@).len()
            == 0) ==> (r matches Err(e) && e matches DefinitionError::ChipNotFound { query }
            && query@ == raw.chip@),
        (selector_parse(raw.probe_selector@) is Some && chip_matches(*registry, raw.chip@).len()
            > 1) ==> (r matches Err(e) && e matches DefinitionError::AmbiguousChipDefinition {
            query,
            candidates,
        } && query@ == raw.chip@ && candidates.deep_view() == chip_matches(*registry, raw.chip@)),
        (selector_parse(raw.probe_selector@) is Some && chip_matches(*registry, raw.chip@).len()
            == 1 && !target_found(*registry, chip_matches(*registry, raw.chip@)[0])) ==> (
        r matches Err(e) && e matches DefinitionError::ChipNotFound { query } && query@
            == chip_matches(*registry, raw.chip@)[0]),
        (selector_parse(raw.probe_selector@) is Some && chip_matches(*registry, raw.chip@).len()
            == 1 && target_found(*registry, chip_matches(*registry, raw.chip@)[0])
            && raw.flash_test_binary is None) ==> r is Ok,
        r matches Err(DefinitionError::IoError { path, .. }) ==> (raw.flash_test_binary
            matches Some(p) && (path@ == flash_candidate(p@, true, base_dir_view(base_dir))
            || path@ == flash_candidate(p@, false, base_dir_view(base_dir)))),
        match r {
            Ok(_) => true,
            Err(e) => (selector_parse(raw.probe_selector@) is Some && chip_matches(
                *registry,
                raw.chip@,
            ).len() == 1) ==> ((e matches DefinitionError::ChipNotFound { query } && query@
                == chip_matches(*registry, raw.chip@)[0])
                || e matches DefinitionError::IoError { .. }),
        },
        r matches Ok(d) ==> ({
            &&& selector_parse(raw.probe_selector@) == Some(d.probe_selector@)
            &&& chip_matches(*registry, raw.chip@).len() == 1
            &&& d.chip.name@ == chip_matches(*registry, raw.chip@)[0]
            &&& d.source == source
            &&& (d.flash_test_binary is Some) == (raw.flash_test_binary is Some)
        }),
{
    let probe_selector = match parse_selector_ext(raw.probe_selector.as_str()) {
        Some(p) => p,
        None => {
            return Err(DefinitionError::InvalidProbeSelector { selector: raw.probe_selector });
        },
    };
    let found = search_chips_ext(registry, raw.chip.as_str());
    let chosen = match disambiguate_chip(raw.chip.as_str(), found) {
        Ok(name) => name,
        Err(e) => {
            return Err(e);
        },
    };
    let target = match get_target_ext(registry, chosen.as_str()) {
        Ok(t) => t,
        Err(_) => {
            return Err(DefinitionError::ChipNotFound { query: chosen });
        },
    };
    let flash_test_binary = match raw.flash_test_binary {
        None => None,
        Some(p) => {
            let dir = match &base_dir {
                Some(d) => d.as_str(),
                None => "",
            };
            proof {
                reveal_strlit("");
                assert(""@ =~= Seq::<char>::empty());
            }
            let is_absolute = path_is_absolute_ext(p.as_str());
            let candidate = flash_binary_candidate(p.as_str(), is_absolute, dir);
            match canonicalize_ext(candidate.as_str()) {
                Ok(absolute) => Some(absolute),
                Err(message) => {
                    return Err(DefinitionError::IoError { path: candidate, message });
                },
            }
        },
    };
    Ok(
        DutDefinition {
            chip: ChipTarget { name: chosen, target },
            probe_selector,
            flash_test_binary,
            source,
        },
    )
}

/// The full paths, in order, of the entries whose file names carry the
/// definition extension: exactly the files that a collection must resolve,
/// in enumeration order.
pub open spec fn toml_entry_paths(entries: Seq<DirEntryItem>) -> Seq<Seq<char>>
    decreases entries.len(),
{
    if entries.len() == 0 {
        Seq::empty()
    } else {
        let prefix = toml_entry_paths(entries.drop_last());
        if has_toml_extension(entries.last().file_name@) {
            prefix.push(entries.last().path@)
        } else {
            prefix
        }
    }
}

/// The path of every extension-bearing entry is among `toml_entry_paths`.
proof fn lemma_toml_entry_paths_contains(entries: Seq<DirEntryItem>, i: int)
    requires
        0 <= i < entries.len(),
        has_toml_extension(entries[i].file_name@),
    ensures
        toml_entry_paths(entries).contains(entries[i].path@),
    decreases entries.len(),
{
    let whole = toml_entry_paths(entries);
    let prefix = toml_entry_paths(entries.drop_last());
    if i == entries.len() - 1 {
        assert(whole[whole.len() - 1] == entries[i].path@);
    } else {
        lemma_toml_entry_paths_contains(entries.drop_last(), i);
        let j = choose|j: int| 0 <= j < prefix.len() && prefix[j] == entries[i].path@;
        assert(whole[j] == entries[i].path@);
    }
}

/// Resolves the entries of one directory enumeration: entries whose names
/// carry the `.toml` extension are parsed and resolved in enumeration order;
/// every other entry contributes nothing and causes no error. The first
/// failing definition aborts the whole batch, naming the failing file's
/// path: no partial result is ever returned.
pub fn resolve_entries(
    entries: &Vec<DirEntryItem>,
    registry: &probe_rs::config::Registry,
) -> (r: Result<Vec<DutDefinition>, CollectError>)
    ensures
        r matches Ok(defs) ==> ({
            &&& defs@.len() == toml_entry_paths(entries@).len()
            &&& forall|i: int|
                0 <= i < defs@.len() ==> ((#[trigger] defs@[i]).source
                    matches DefinitionSource::File(p) && p@ == toml_entry_paths(entries@)[i])
        }),
        r matches Err(e) ==> (e matches CollectError::InFile { path, .. } && toml_entry_paths(
            entries@,
        ).contains(path@)),
{
    let mut definitions: Vec<DutDefinition> = Vec::new();
    let mut idx: usize = 0;
    while idx < entries.len()
        invariant
            idx <= entries@.len(),
            definitions@.len() == toml_entry_paths(entries@.take(idx as int)).len(),
            forall|i: int|
                0 <= i < definitions@.len() ==> ((#[trigger] definitions@[i]).source
                    matches DefinitionSource::File(p) && p@ == toml_entry_paths(
                    entries@.take(idx as int),
                )[i]),
        decreases entries@.len() - idx,
    {
        let entry: &DirEntryItem = &entries[idx];
        proof {
            assert(entries@.take(idx as int + 1).drop_last() =~= entries@.take(idx as int));
            assert(entries@.take(idx as int + 1).last() == entries@[idx as int]);
        }
        if is_toml_file_name(entry.file_name.as_str()) {
            match DutDefinition::from_file(entry.path.as_str(), registry) {
                Ok(d) => definitions.push(d),
                Err(error) => {
                    proof {
                        lemma_toml_entry_paths_contains(entries@, idx as int);
                    }
                    return Err(CollectError::InFile { path: entry.path.clone(), error });
                },
            }
        }
        idx += 1;
    }
    proof {
        assert(entries@.take(entries@.len() as int) =~= entries@);
    }
    Ok(definitions)
}

impl DutDefinition {
    /// Resolves a raw definition read from `source_file`: the probe selector
    /// is parsed against the external grammar, the chip query must match
    /// exactly one known chip, and a relative flash-test-binary path is
    /// taken relative to the defining file's directory, never the current
    /// directory, then canonicalized.
    pub fn from_raw_definition(
        raw: RawDutDefinition,
        source_file: &str,
        registry: &probe_rs::config::Registry,
    ) -> (r: Result<DutDefinition, DefinitionError>)
        ensures
            selector_parse(raw.probe_selector@) is None ==> (r matches Err(e)
                && e matches DefinitionError::InvalidProbeSelector { selector } && selector@
                == raw.probe_selector@),
            (selector_parse(raw.probe_selector@) is Some && chip_matches(
                *registry,
                raw.chip@,
            ).len() == 0) ==> (r matches Err(e) && e matches DefinitionError::ChipNotFound {
                query,
            } && query@ == raw.chip@),
            (selector_parse(raw.probe_selector@) is Some && chip_matches(
                *registry,
                raw.chip@,
            ).len() > 1) ==> (r matches Err(e)
                && e matches DefinitionError::AmbiguousChipDefinition { query, candidates }
                && query@ == raw.chip@ && candidates.deep_view() == chip_matches(
                *registry,
                raw.chip@,
            )),
            (selector_parse(raw.probe_selector@) is Some && chip_matches(
                *registry,
                raw.chip@,
            ).len() == 1 && !target_found(*registry, chip_matches(*registry, raw.chip@)[0]))
                ==> (r matches Err(e) && e matches DefinitionError::ChipNotFound { query }
                && query@ == chip_matches(*registry, raw.chip@)[0]),
            (selector_parse(raw.probe_selector@) is Some && chip_matches(
                *registry,
                raw.chip@,
            ).len() == 1 && target_found(*registry, chip_matches(*registry, raw.chip@)[0])
                && raw.flash_test_binary is None) ==> r is Ok,
            r matches Err(DefinitionError::IoError { path, .. }) ==> (raw.flash_test_binary
                matches Some(p) && seq_ends_with(path@, p@)),
            match r {
                Ok(_) => true,
                Err(e) => (selector_parse(raw.probe_selector@) is Some && chip_matches(
                    *registry,
                    raw.chip@,
                ).len() == 1) ==> ((e matches DefinitionError::ChipNotFound { query } && query@
                    == chip_matches(*registry, raw.chip@)[0])
                    || e matches DefinitionError::IoError { .. }),
            },
            r matches Ok(d) ==> ({
                &&& selector_parse(raw.probe_selector@) == Some(d.probe_selector@)
                &&& chip_matches(*registry, raw.chip@).len() == 1
                &&& d.chip.name@ == chip_matches(*registry, raw.chip@)[0]
                &&& d.source matches DefinitionSource::File(p) && p@ == source_file@
                &&& (d.flash_test_binary is Some) == (raw.flash_test_binary is Some)
            }),
    {
        let ghost flash = raw.flash_test_binary;
        let base_dir = path_parent_ext(source_file);
        let ghost dir = base_dir_view(base_dir);
        let r = resolve_raw(raw, base_dir, DefinitionSource::File(source_file.to_owned()), registry);
        proof {
            match flash {
                Some(p) => {
                    lemma_flash_candidate_ends_with(p@, true, dir);
                    lemma_flash_candidate_ends_with(p@, false, dir);
                },
                None => {},
            }
        }
        r
    }

    /// Resolves a definition constructed programmatically (for instance from
    /// command-line arguments) rather than loaded from a file: a relative
    /// flash-test-binary path is resolved against the current directory.
    pub fn from_cli_definition(
        raw: RawDutDefinition,
        registry: &probe_rs::config::Registry,
    ) -> (r: Result<DutDefinition, DefinitionError>)
        ensures
            selector_parse(raw.probe_selector@) is None ==> (r matches Err(e)
                && e matches DefinitionError::InvalidProbeSelector { selector } && selector@
                == raw.probe_selector@),
            (selector_parse(raw.probe_selector@) is Some && chip_matches(
                *registry,
                raw.chip@,
            ).len() == 0) ==> (r matches Err(e) && e matches DefinitionError::ChipNotFound {
                query,
            } && query@ == raw.chip@),
            (selector_parse(raw.probe_selector@) is Some && chip_matches(
                *registry,
                raw.chip@,
            ).len() > 1) ==> (r matches Err(e)
                && e matches DefinitionError::AmbiguousChipDefinition { query, candidates }
                && query@ == raw.chip@ && candidates.deep_view() == chip_matches(
                *registry,
                raw.chip@,
            )),
            (selector_parse(raw.probe_selector@) is Some && chip_matches(
                *registry,
                raw.chip@,
            ).len() == 1 && !target_found(*registry, chip_matches(*registry, raw.chip@)[0]))
                ==> (r matches Err(e) && e matches DefinitionError::ChipNotFound { query }
                && query@ == chip_matches(*registry, raw.chip@)[0]),
            (selector_parse(raw.probe_selector@) is Some && chip_matches(
                *registry,
                raw.chip@,
            ).len() == 1 && target_found(*registry, chip_matches(*registry, raw.chip@)[0])
                && raw.flash_test_binary is None) ==> r is Ok,
            r matches Err(DefinitionError::IoError { path, .. }) ==> (raw.flash_test_binary
                matches Some(p) && path@ == p@),
            match r {
                Ok(_) => true,
                Err(e) => (selector_parse(raw.probe_selector@) is Some && chip_matches(
                    *registry,
                    raw.chip@,
                ).len() == 1) ==> ((e matches DefinitionError::ChipNotFound { query } && query@
                    == chip_matches(*registry, raw.chip@)[0])
                    || e matches DefinitionError::IoError { .. }),
            },
            r matches Ok(d) ==> ({
                &&& selector_parse(raw.probe_selector@) == Some(d.probe_selector@)
                &&& chip_matches(*registry, raw.chip@).len() == 1
                &&& d.chip.name@ == chip_matches(*registry, raw.chip@)[0]
                &&& d.source == DefinitionSource::Cli
                &&& (d.flash_test_binary is Some) == (raw.flash_test_binary is Some)
            }),
    {
        resolve_raw(raw, None, DefinitionSource::Cli, registry)
    }

    /// Reads and resolves one definition file.
    pub fn from_file(file: &str, registry: &probe_rs::config::Registry) -> (r: Result<
        DutDefinition,
        DefinitionError,
    >)
        ensures
            r matches Ok(d) ==> (d.source matches DefinitionSource::File(p) && p@ == file@),
    {
        let raw = match RawDutDefinition::from_file(file) {
            Ok(raw) => raw,
            Err(e) => {
                return Err(e);
            },
        };
        DutDefinition::from_raw_definition(raw, file, registry)
    }

    /// Collects every DUT definition from a directory: immediate entries
    /// whose name carries the `.toml` extension are parsed and resolved; any
    /// other entry is silently skipped. The first failing definition file
    /// aborts the whole collection — a smoke-test campaign must not proceed
    /// with a partial definition set.
    pub fn collect(directory: &str) -> (r: Result<Vec<DutDefinition>, CollectError>)
        ensures
            r matches Err(CollectError::NotADirectory { path }) ==> path@ == directory@,
            r matches Err(CollectError::DirectoryRead { path, .. }) ==> path@ == directory@,
            r matches Ok(defs) ==> forall|i: int|
                0 <= i < defs@.len() ==> (#[trigger] defs@[i].source) matches DefinitionSource::File(
                    _,
                ),
    {
        if !is_dir_ext(directory) {
            return Err(CollectError::NotADirectory { path: directory.to_owned() });
        }
        let registry = builtin_registry();
        let entries = match read_dir_ext(directory) {
            Ok(es) => es,
            Err(message) => {
                return Err(CollectError::DirectoryRead { path: directory.to_owned(), message });
            },
        };
        resolve_entries(&entries, &registry)
    }

    /// Attempts to open the physical debug probe this definition selects.
    /// Pure delegation to the probe-management capability: no retry, no
    /// pooling; every call is a fresh open attempt, and failure carries the
    /// selector so the caller can report it.
    pub fn open_probe(&self) -> (r: Result<probe_rs::probe::Probe, OpenError>)
        ensures
            r matches Err(e) ==> e.selector@ == self.probe_selector@,
    {
        match open_probe_ext(&self.probe_selector) {
            Ok(p) => Ok(p),
            Err(message) => Err(OpenError { selector: self.probe_selector.clone(), message }),
        }
    }
}

} // verus!
