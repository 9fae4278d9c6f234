use vstd::prelude::*;
use crate::errors::DefinitionError;

verus! {

#[verifier::external_type_specification]
#[verifier::external_body]
pub struct ExRegistry(probe_rs::config::Registry);

#[verifier::external_type_specification]
#[verifier::external_body]
pub struct ExTarget(probe_rs::config::Target);

/// A fully resolved chip: the exact name the chip database knows it by, and
/// the database's full target descriptor fetched for that name.
pub struct ChipTarget {
    pub name: String,
    pub target: probe_rs::config::Target,
}

/// The chip names the database returns for a query: a function of the
/// registry value and the query string. The matching rule (prefixes, case,
/// wildcards) is owned by probe-rs.
pub uninterp spec fn chip_matches(registry: probe_rs::config::Registry, query: Seq<char>) -> Seq<
    Seq<char>,
>;

/// Relies on `probe_rs::config::Registry::from_builtin_families`: the chip
/// database shipped with probe-rs.
#[verifier::external_body]
pub(crate) fn builtin_registry() -> probe_rs::config::Registry {
    probe_rs::config::Registry::from_builtin_families()
}

/// Relies on `probe_rs::config::Registry::search_chips`: the returned names
/// are the chips matching the query, a function of the registry value and
/// the query alone.
#[verifier::external_body]
pub(crate) fn search_chips_ext(registry: &probe_rs::config::Registry, query: &str) -> (r: Vec<
    String,
>)
    ensures
        r.deep_view() == chip_matches(*registry, query@),
{
    registry.search_chips(query)
}

/// Whether the chip database can deliver a full descriptor for a name: a
/// function of the registry value and the name alone. The descriptor itself
/// stays opaque.
pub uninterp spec fn target_found(registry: probe_rs::config::Registry, name: Seq<char>) -> bool;

/// Relies on `probe_rs::config::Registry::get_target_by_name`: the full
/// descriptor for a chip name. The lookup walks the registry's families in
/// order, so its success is a function of the registry value and the name,
/// named by `target_found`; the descriptor itself is opaque.
#[verifier::external_body]
pub(crate) fn get_target_ext(registry: &probe_rs::config::Registry, name: &str) -> (r: Result<
    probe_rs::config::Target,
    String,
>)
    ensures
        (r is Ok) == target_found(*registry, name@),
{
    match registry.get_target_by_name(name) {
        Ok(t) => Ok(t),
        Err(e) => Err(format!("{e}")),
    }
}

/// The disambiguation policy: a chip query is usable only where it matches
/// exactly one known chip. Zero matches fail with `ChipNotFound`; two or
/// more are a hard ambiguity error that enumerates every candidate name, so
/// the author of the definition can pick an exact one — never a silent
/// best-match.
pub fn disambiguate_chip(query: &str, found: Vec<String>) -> (r: Result<String, DefinitionError>)
    ensures
        found@.len() == 0 ==> (r matches Err(e) && e matches DefinitionError::ChipNotFound {
            query: q,
        } && q@ == query@),
        found@.len() > 1 ==> (r matches Err(e)
            && e matches DefinitionError::AmbiguousChipDefinition { query: q, candidates } && q@
            == query@ && candidates.deep_view() == found.deep_view()),
        found@.len() == 1 ==> (r matches Ok(name) && name@ == found.deep_view()[0]),
{
    if found.len() == 0 {
        Err(DefinitionError::ChipNotFound { query: query.to_owned() })
    } else if found.len() > 1 {
        Err(
            DefinitionError::AmbiguousChipDefinition {
                query: query.to_owned(),
                candidates: found,
            },
        )
    } else {
        let mut only = found;
        let name = only.pop().unwrap();
        Ok(name)
    }
}

} // verus!
