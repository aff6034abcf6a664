//! The YAML side of the task document, done by `serde_yaml`. A document is
//! handled here as a list of records, each a list of keys with their values,
//! all of them text.

use vstd::prelude::*;

verus! {

/// The error of `serde_yaml`, carried through unread.
#[verifier::external_type_specification]
#[verifier::external_body]
pub struct ExYamlError(serde_yaml::Error);

/// What `serde_yaml::from_str` makes of a text when it is asked for a list of
/// maps from text to text: the records with their fields, or nothing where it
/// reports an error.
pub uninterp spec fn yaml_records(text: Seq<char>) -> Option<Seq<Seq<(Seq<char>, Seq<char>)>>>;

/// What `serde_yaml::to_string` writes for a list of mappings from text to
/// text, each with its fields in the order given, or nothing where it reports
/// an error.
pub uninterp spec fn yaml_text(records: Seq<Seq<(Seq<char>, Seq<char>)>>) -> Option<Seq<char>>;

/// Calls `serde_yaml::from_str` for a `Vec<BTreeMap<String, String>>` and
/// hands each map out as the list of its entries. Nothing is proved of the
/// outcome: the contract only gives it the name `yaml_records`.
#[verifier::external_body]
pub(crate) fn parse_records(text: &str) -> (result: Result<
    Vec<Vec<(String, String)>>,
    serde_yaml::Error,
>)
    ensures
        match result {
            Ok(records) => yaml_records(text@) == Some(records.deep_view()),
            Err(_) => yaml_records(text@) is None,
        },
{
    let maps = serde_yaml::from_str::<Vec<std::collections::BTreeMap<String, String>>>(text)?;
    Ok(maps.into_iter().map(|fields| fields.into_iter().collect()).collect())
}

/// Builds one `serde_yaml::Mapping` per record, with the fields in their
/// order, and calls `serde_yaml::to_string` on the list. Nothing is proved of
/// the outcome: the contract only gives it the name `yaml_text`.
#[verifier::external_body]
pub(crate) fn write_records(records: &Vec<Vec<(String, String)>>) -> (result: Result<
    String,
    serde_yaml::Error,
>)
    ensures
        match result {
            Ok(text) => yaml_text(records.deep_view()) == Some(text@),
            Err(_) => yaml_text(records.deep_view()) is None,
        },
{
    let mappings: Vec<serde_yaml::Mapping> = records.iter().map(
        |fields| fields.iter().map(
            |field| (serde_yaml::Value::from(field.0.as_str()), serde_yaml::Value::from(field.1.as_str())),
        ).collect(),
    ).collect();
    serde_yaml::to_string(&mappings)
}

} // verus!
