//! Access to YAML documents. Parsing and lookup are done by `yaml_rust`; this
//! module states what the rest of the library relies on.

use vstd::prelude::*;
use yaml_rust::scanner::ScanError;
use yaml_rust::Yaml;
use yaml_rust::YamlLoader;

verus! {

/// A parsed YAML node, opaque to the verifier.
#[verifier::external_type_specification]
#[verifier::external_body]
pub struct ExYaml(yaml_rust::Yaml);

/// The error with which `yaml_rust` rejects a text.
#[verifier::external_type_specification]
#[verifier::external_body]
pub struct ExScanError(yaml_rust::scanner::ScanError);

/// The documents that `YamlLoader::load_from_str` reads from a text, or `None`
/// where it rejects the text.
pub uninterp spec fn yaml_documents(text: Seq<char>) -> Option<Seq<Yaml>>;

/// The string scalars of a document that sit two levels deep: the entry for
/// `(section, key)` is the scalar at `doc[section][key]`.
pub uninterp spec fn yaml_strings(doc: Yaml) -> Map<(Seq<char>, Seq<char>), Seq<char>>;

/// The integer scalars of a document that sit two levels deep, keyed as in
/// [`yaml_strings`].
pub uninterp spec fn yaml_integers(doc: Yaml) -> Map<(Seq<char>, Seq<char>), i64>;

/// The string at `doc[section][key]`, if there is one.
pub open spec fn string_entry(doc: Yaml, section: Seq<char>, key: Seq<char>) -> Option<Seq<char>> {
    if yaml_strings(doc).contains_key((section, key)) {
        Some(yaml_strings(doc)[(section, key)])
    } else {
        None
    }
}

/// The integer at `doc[section][key]`, if there is one.
pub open spec fn integer_entry(doc: Yaml, section: Seq<char>, key: Seq<char>) -> Option<i64> {
    if yaml_integers(doc).contains_key((section, key)) {
        Some(yaml_integers(doc)[(section, key)])
    } else {
        None
    }
}

/// Calls `YamlLoader::load_from_str`. Trusted: the outcome is a function of
/// the text alone, which [`yaml_documents`] names.
#[verifier::external_body]
pub(crate) fn load_yaml(text: &str) -> (r: Result<Vec<Yaml>, ScanError>)
    ensures
        match r {
            Ok(docs) => yaml_documents(text@) == Some(docs@),
            Err(_) => yaml_documents(text@) is None,
        },
{
    YamlLoader::load_from_str(text)
}

/// Indexes a node by `section`, then by `key`, and calls `Yaml::as_str` on
/// what is there. Trusted: the result is the entry of [`yaml_strings`] for
/// that pair, and `None` where there is none (a missing section or key, or a
/// node that is no string).
#[verifier::external_body]
pub(crate) fn string_at(doc: &Yaml, section: &str, key: &str) -> (r: Option<String>)
    ensures
        match r {
            Some(s) => yaml_strings(*doc).contains_key((section@, key@))
                && yaml_strings(*doc)[(section@, key@)] == s@,
            None => !yaml_strings(*doc).contains_key((section@, key@)),
        },
{
    doc[section][key].as_str().map(|s| s.to_string())
}

/// Indexes a node by `section`, then by `key`, and calls `Yaml::as_i64` on
/// what is there. Trusted: the result is the entry of [`yaml_integers`] for
/// that pair, and `None` where there is none (a missing section or key, or a
/// node that is no integer).
#[verifier::external_body]
pub(crate) fn integer_at(doc: &Yaml, section: &str, key: &str) -> (r: Option<i64>)
    ensures
        match r {
            Some(i) => yaml_integers(*doc).contains_key((section@, key@))
                && yaml_integers(*doc)[(section@, key@)] == i,
            None => !yaml_integers(*doc).contains_key((section@, key@)),
        },
{
    doc[section][key].as_i64()
}

} // verus!
