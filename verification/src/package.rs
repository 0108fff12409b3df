//! The name of the package whose bindings are walked, from the environment
//! or from the package's manifest.

use vstd::prelude::*;
use vstd::string::*;
use crate::error::{ErrorModel, FinchError};
use crate::manifest::{measure_nesting, nesting_of, MAX_NESTING};

verus! {

/// A value of a TOML document, as the `toml` crate holds it.
#[verifier::external_type_specification]
#[verifier::external_body]
pub struct ExTomlValue(toml::Value);

/// The `toml` crate's reason for refusing a text.
#[verifier::external_type_specification]
#[verifier::external_body]
pub struct ExTomlError(toml::de::Error);

/// The document that a text parses to, or the parser's reason for refusing it.
pub uninterp spec fn toml_parsed(text: Seq<char>) -> Result<toml::Value, toml::de::Error>;

/// The text in which the parser states a reason.
pub uninterp spec fn toml_error_text(err: toml::de::Error) -> Seq<char>;

/// The value is a table.
pub uninterp spec fn toml_is_table(value: toml::Value) -> bool;

/// The value under a key of a table; `None` for a key that the table lacks
/// and for a value that is no table.
pub uninterp spec fn toml_entry(value: toml::Value, key: Seq<char>) -> Option<toml::Value>;

/// The characters of a value that is a string; `None` for any other value.
pub uninterp spec fn toml_string(value: toml::Value) -> Option<Seq<char>>;

/// `str::parse::<toml::Value>`, which is `toml::from_str`: the document that
/// the text parses to, or the crate's error where the text is no TOML. The
/// parser calls itself once for each level of arrays and inline tables and
/// for each part of a key or header, without a limit of its own, and the
/// document is then built level by level. No value of the document lies
/// deeper than twice the measured nesting and one more, so a text is handed
/// to the parser only where that measure is bounded.
#[verifier::external_body]
fn parse_document(text: &str) -> (out: Result<toml::Value, toml::de::Error>)
    requires
        nesting_of(text@) <= MAX_NESTING,
    ensures
        out == toml_parsed(text@),
{
    text.parse::<toml::Value>()
}

/// `ToString::to_string` of `toml::de::Error`, that is its `Display`: the
/// text in which the parser states its reason.
#[verifier::external_body]
fn error_text(err: &toml::de::Error) -> (out: String)
    ensures
        out@ == toml_error_text(*err),
{
    err.to_string()
}

/// `toml::Value::is_table`: whether the value is a table.
#[verifier::external_body]
fn is_table(value: &toml::Value) -> (out: bool)
    ensures
        out == toml_is_table(*value),
{
    value.is_table()
}

/// `toml::Value::get` with a string index: the value under that key where
/// `value` is a table that has the key, else `None`.
#[verifier::external_body]
fn entry<'a>(value: &'a toml::Value, key: &str) -> (out: Option<&'a toml::Value>)
    ensures
        match out {
            Some(found) => toml_entry(*value, key@) == Some(*found),
            None => toml_entry(*value, key@) is None,
        },
{
    value.get(key)
}

/// `toml::Value::as_str`, copied into a `String`: the characters of a value
/// that is a string, else `None`.
#[verifier::external_body]
fn string_of(value: &toml::Value) -> (out: Option<String>)
    ensures
        match out {
            Some(s) => toml_string(*value) == Some(s@),
            None => toml_string(*value) is None,
        },
{
    value.as_str().map(String::from)
}

/// The package name that a manifest's document gives: the string under
/// `name` in the table under `package` of the root table. Each failure says
/// which of the three is not there.
pub open spec fn package_name_in(doc: toml::Value) -> Result<Seq<char>, ErrorModel> {
    if !toml_is_table(doc) {
        Err(ErrorModel::NoRootTable)
    } else {
        match toml_entry(doc, "package"@) {
            None => Err(ErrorModel::NoPackageTable),
            Some(package) => if !toml_is_table(package) {
                Err(ErrorModel::NoPackageTable)
            } else {
                match toml_entry(package, "name"@) {
                    None => Err(ErrorModel::NoPackageName),
                    Some(name) => match toml_string(name) {
                        Some(s) => Ok(s),
                        None => Err(ErrorModel::NoPackageName),
                    },
                }
            },
        }
    }
}

/// The package name that a manifest's text gives. A text that nests deeper
/// than `MAX_NESTING` is refused unread; a text that is no TOML is refused
/// with the parser's reason.
pub open spec fn package_name_of(text: Seq<char>) -> Result<Seq<char>, ErrorModel> {
    if nesting_of(text) > MAX_NESTING {
        Err(ErrorModel::ManifestTooNested)
    } else {
        match toml_parsed(text) {
            Err(err) => Err(ErrorModel::ManifestSyntax { reason: toml_error_text(err) }),
            Ok(doc) => package_name_in(doc),
        }
    }
}

/// The package name that is chosen: from the manifest when run as a
/// command-line tool; else from the environment where it gives one, and from
/// the manifest where it gives none.
pub open spec fn chosen_package_name(cli: bool, env_name: Option<Seq<char>>, text: Seq<char>) -> Result<
    Seq<char>,
    ErrorModel,
> {
    if !cli && env_name is Some {
        Ok(env_name->0)
    } else {
        package_name_of(text)
    }
}

/// A result stands for `model`: a string of those characters, or that failure.
pub open spec fn gives(out: Result<String, FinchError>, model: Result<Seq<char>, ErrorModel>) -> bool {
    match out {
        Ok(s) => model == Ok::<Seq<char>, ErrorModel>(s@),
        Err(err) => model == Err::<Seq<char>, ErrorModel>(err@),
    }
}

/// Reads the package name off a manifest's document.
pub fn package_name_from_document(doc: &toml::Value) -> (out: Result<String, FinchError>)
    ensures
        gives(out, package_name_in(*doc)),
{
    if !is_table(doc) {
        return Err(FinchError::NoRootTable);
    }
    let package = match entry(doc, "package") {
        Some(package) => package,
        None => {
            return Err(FinchError::NoPackageTable);
        },
    };
    if !is_table(package) {
        return Err(FinchError::NoPackageTable);
    }
    let name = match entry(package, "name") {
        Some(name) => name,
        None => {
            return Err(FinchError::NoPackageName);
        },
    };
    match string_of(name) {
        Some(s) => Ok(s),
        None => Err(FinchError::NoPackageName),
    }
}

/// Reads the package name off a manifest's text.
pub fn get_package_name_from_cargo_toml(text: &str) -> (out: Result<String, FinchError>)
    ensures
        gives(out, package_name_of(text@)),
{
    if measure_nesting(text) > MAX_NESTING {
        return Err(FinchError::ManifestTooNested);
    }
    match parse_document(text) {
        Ok(doc) => package_name_from_document(&doc),
        Err(err) => Err(FinchError::ManifestSyntax { reason: error_text(&err) }),
    }
}

/// Chooses the package name: `env_name` is what the environment gives for
/// the package, `manifest` the text of the package's manifest.
pub fn get_package_name(cli: bool, env_name: Option<String>, manifest: &str) -> (out: Result<
    String,
    FinchError,
>)
    ensures
        gives(out, chosen_package_name(cli, crate::text::opt_view(env_name), manifest@)),
{
    if cli {
        get_package_name_from_cargo_toml(manifest)
    } else {
        match env_name {
            Some(name) => Ok(name),
            None => get_package_name_from_cargo_toml(manifest),
        }
    }
}

} // verus!
