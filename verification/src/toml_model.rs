use vstd::prelude::*;

verus! {

/// The shape of one parsed TOML value, as far as the definition schema
/// cares: a string (with its characters), a table (with the shapes of its
/// fields), or anything else.
pub enum TomlVal {
    VStr(Seq<char>),
    VTable(Map<Seq<char>, TomlVal>),
    VOther,
}

/// The field named `key` of `doc`, where `doc` is a table that has it.
pub open spec fn doc_field(doc: TomlVal, key: Seq<char>) -> Option<TomlVal> {
    match doc {
        TomlVal::VTable(m) => if m.contains_key(key) {
            Some(m[key])
        } else {
            None
        },
        _ => None,
    }
}

#[verifier::external_type_specification]
#[verifier::external_body]
pub struct ExTomlValue(toml::Value);

/// The shape a `toml::Value` holds, as a `TomlVal`: the one model that the
/// parse, lookup and string-extraction contracts below all speak of.
pub uninterp spec fn toml_shape(v: toml::Value) -> TomlVal;

/// What the TOML grammar makes of a document: `None` where the text is
/// rejected, otherwise the shape of the parsed value. Parsing is a function
/// of the text alone.
pub uninterp spec fn toml_parse(s: Seq<char>) -> Option<TomlVal>;

/// Relies on `toml::Table`'s `FromStr`: the parse of a whole document is
/// deterministic in the text, and the returned value is the document's root
/// table.
#[verifier::external_body]
pub(crate) fn parse_toml_ext(content: &str) -> (r: Result<toml::Value, String>)
    ensures
        (r is Ok) == (toml_parse(content@) is Some),
        r matches Ok(v) ==> toml_parse(content@) == Some(toml_shape(v)),
{
    match content.parse::<toml::Table>() {
        Ok(t) => Ok(toml::Value::Table(t)),
        Err(e) => Err(format!("{e}")),
    }
}

/// Relies on `toml::Value::get` with a string index: on a table it looks the
/// key up, on any other value it returns `None`.
#[verifier::external_body]
pub(crate) fn toml_get<'a>(v: &'a toml::Value, key: &str) -> (r: Option<&'a toml::Value>)
    ensures
        (r is Some) == (doc_field(toml_shape(*v), key@) is Some),
        r matches Some(x) ==> doc_field(toml_shape(*v), key@) == Some(toml_shape(*x)),
{
    v.get(key)
}

/// Relies on `toml::Value::as_str`: it returns the characters of a string
/// value and `None` for every other value.
#[verifier::external_body]
pub(crate) fn toml_as_str<'a>(v: &'a toml::Value) -> (r: Option<&'a str>)
    ensures
        (r is Some) == (toml_shape(*v) is VStr),
        r matches Some(s) ==> toml_shape(*v) == TomlVal::VStr(s@),
{
    v.as_str()
}

} // verus!
