//! The failures that end a run.

use vstd::prelude::*;
use vstd::string::*;

verus! {

/// Why a run was given up.
#[derive(Clone, Debug)]
pub enum FinchError {
    /// The manifest nests, or may nest, deeper than the parser is handed.
    ManifestTooNested,
    /// The manifest is no TOML document; `reason` is the parser's own text.
    ManifestSyntax { reason: String },
    /// The manifest's root is no table.
    NoRootTable,
    /// The manifest has no `[package]` table.
    NoPackageTable,
    /// The `[package]` table has no `name` string.
    NoPackageName,
    /// A declaration that the walk has to read by name has none.
    Unnamed,
    /// A member was declared before its class.
    ClassNotFound { class_name: String },
    /// A method was declared without the receiver argument.
    MissingReceiver { function: String },
    /// A setter was declared without the argument that carries the value.
    MissingValue { function: String },
    /// The front end could not resolve a name or a type that the member needs.
    Unresolved { function: String },
}

/// The mathematical value of a failure.
pub enum ErrorModel {
    ManifestTooNested,
    ManifestSyntax { reason: Seq<char> },
    NoRootTable,
    NoPackageTable,
    NoPackageName,
    Unnamed,
    ClassNotFound { class_name: Seq<char> },
    MissingReceiver { function: Seq<char> },
    MissingValue { function: Seq<char> },
    Unresolved { function: Seq<char> },
}

impl View for FinchError {
    type V = ErrorModel;

    open spec fn view(&self) -> ErrorModel {
        match *self {
            FinchError::ManifestTooNested => ErrorModel::ManifestTooNested,
            FinchError::ManifestSyntax { reason } => ErrorModel::ManifestSyntax { reason: reason@ },
            FinchError::NoRootTable => ErrorModel::NoRootTable,
            FinchError::NoPackageTable => ErrorModel::NoPackageTable,
            FinchError::NoPackageName => ErrorModel::NoPackageName,
            FinchError::Unnamed => ErrorModel::Unnamed,
            FinchError::ClassNotFound { class_name } => ErrorModel::ClassNotFound {
                class_name: class_name@,
            },
            FinchError::MissingReceiver { function } => ErrorModel::MissingReceiver {
                function: function@,
            },
            FinchError::MissingValue { function } => ErrorModel::MissingValue {
                function: function@,
            },
            FinchError::Unresolved { function } => ErrorModel::Unresolved {
                function: function@,
            },
        }
    }
}

/// A result stands for `model`: a value with that view, or that failure.
pub open spec fn agrees<T: View>(out: Result<T, FinchError>, model: Result<T::V, ErrorModel>) -> bool {
    match out {
        Ok(value) => model == Ok::<T::V, ErrorModel>(value@),
        Err(err) => model == Err::<T::V, ErrorModel>(err@),
    }
}

/// The text of a failure that names `subject`: `head`, the subject, a quote.
pub open spec fn quoted(head: Seq<char>, subject: Seq<char>) -> Seq<char> {
    head + subject + "'"@
}

/// The text of a failure.
pub open spec fn message_of(e: ErrorModel) -> Seq<char> {
    match e {
        ErrorModel::ManifestTooNested => "Cargo.toml is nested too deeply"@,
        ErrorModel::ManifestSyntax { reason } => reason,
        ErrorModel::NoRootTable => "Cargo.toml does not have root table element"@,
        ErrorModel::NoPackageTable => "Cargo.toml does not have [package] table"@,
        ErrorModel::NoPackageName => "Cargo.toml does not have package name string"@,
        ErrorModel::Unnamed => "declaration without a name"@,
        ErrorModel::ClassNotFound { class_name } => quoted("failed to find class '"@, class_name),
        ErrorModel::MissingReceiver { function } => quoted(
            "method without a receiver argument '"@,
            function,
        ),
        ErrorModel::MissingValue { function } => quoted(
            "setter without a value argument '"@,
            function,
        ),
        ErrorModel::Unresolved { function } => quoted("unresolved name or type in '"@, function),
    }
}

/// Builds the text that names `subject` behind `head`, and closes the quote.
pub fn quote(head: &str, subject: &String) -> (out: String)
    ensures
        out@ == quoted(head@, subject@),
{
    let mut out = String::from_str(head);
    out.append(subject.as_str());
    out.append("'");
    out
}

impl FinchError {
    /// The text that names the violated assumption.
    pub fn message(&self) -> (out: String)
        ensures
            out@ == message_of(self@),
    {
        match self {
            FinchError::ManifestTooNested => String::from_str("Cargo.toml is nested too deeply"),
            FinchError::ManifestSyntax { reason } => reason.clone(),
            FinchError::NoRootTable => String::from_str(
                "Cargo.toml does not have root table element",
            ),
            FinchError::NoPackageTable => String::from_str(
                "Cargo.toml does not have [package] table",
            ),
            FinchError::NoPackageName => String::from_str(
                "Cargo.toml does not have package name string",
            ),
            FinchError::Unnamed => String::from_str("declaration without a name"),
            FinchError::ClassNotFound { class_name } => quote("failed to find class '", class_name),
            FinchError::MissingReceiver { function } => quote(
                "method without a receiver argument '",
                function,
            ),
            FinchError::MissingValue { function } => quote(
                "setter without a value argument '",
                function,
            ),
            FinchError::Unresolved { function } => quote("unresolved name or type in '", function),
        }
    }
}

} // verus!
