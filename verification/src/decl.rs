//! The declaration tree as the front end hands it over.

use vstd::prelude::*;
use crate::types::TypeHandle;

verus! {

/// The kinds of declaration that the walk tells apart.
#[derive(Clone, Copy, Debug, PartialEq, Eq, Structural)]
pub enum EntityKind {
    TranslationUnit,
    Namespace,
    /// A wrapper that some front ends put around a block of declarations.
    UnexposedDecl,
    TypeAliasDecl,
    FunctionDecl,
    Other,
}

/// One parameter of a function declaration.
#[derive(Debug)]
pub struct Argument {
    /// The parameter's name; `None` where the front end gives none.
    pub display_name: Option<String>,
    /// The parameter's type; `None` where the front end could not resolve it.
    pub type_handle: Option<TypeHandle>,
}

/// One declaration with everything below it.
#[derive(Debug)]
pub struct Entity {
    pub kind: EntityKind,
    /// The bare name, for a function its linkage name; `None` where the
    /// declaration has none.
    pub name: Option<String>,
    /// The name as it is displayed; `None` where the declaration has none.
    pub display_name: Option<String>,
    /// The documentation comment attached to the declaration.
    pub comment: Option<String>,
    /// The parameters in order; empty for anything but a function.
    pub arguments: Vec<Argument>,
    /// A function's result type; `None` where the front end could not resolve it.
    pub result_type: Option<TypeHandle>,
    pub children: Vec<Entity>,
}

/// An argument has a name and a resolved type.
pub open spec fn arg_resolved(arg: Argument) -> bool {
    arg.display_name is Some && arg.type_handle is Some
}

/// Every argument has a name and a resolved type.
pub open spec fn args_resolved(args: Seq<Argument>) -> bool {
    forall|i: int| 0 <= i < args.len() ==> arg_resolved(#[trigger] args[i])
}

/// The names of the arguments, in order.
pub open spec fn arg_names_of(args: Seq<Argument>) -> Seq<Seq<char>> {
    args.map_values(|a: Argument| a.display_name->0@)
}

/// The descriptions of the arguments' types, in order.
pub open spec fn arg_types_of(args: Seq<Argument>) -> Seq<crate::types::TypeModel> {
    args.map_values(|a: Argument| a.type_handle->0.description())
}

} // verus!
