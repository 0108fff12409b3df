//! Recovers an object-oriented binding model (classes with their constructors,
//! destructors, methods, static functions, getters and setters) from the
//! declaration tree of a generated C-linkage header.

pub mod class;
pub mod decl;
pub mod error;
pub mod ident;
pub mod laws;
pub mod manifest;
pub mod members;
pub mod naming;
pub mod package;
pub mod text;
pub mod types;
pub mod walker;

pub use clang::TypeKind;

pub use crate::class::FinchClass;
pub use crate::decl::{Argument, Entity, EntityKind};
pub use crate::error::FinchError;
pub use crate::members::{FinchDrop, FinchGetter, FinchMethod, FinchNew, FinchSetter, FinchStatic};
pub use crate::naming::{to_camel_case, to_pascal_case};
pub use crate::package::get_package_name;
pub use crate::types::{FinchType, TypeHandle};
pub use crate::walker::{generate, FinchOutput, ParserState, Warning};
