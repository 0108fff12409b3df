//! Type handles as the front end reports them, and the owned descriptions
//! built from them.

use vstd::prelude::*;

verus! {

/// The front end's tag for the kind of a type, carried through unchanged.
#[verifier::external_type_specification]
#[verifier::external_body]
pub struct ExTypeKind(clang::TypeKind);

/// What the front end knows of one type.
#[derive(Debug)]
pub struct TypeHandle {
    pub display_name: String,
    pub kind: clang::TypeKind,
    /// The type pointed or referred to, for a pointer or a reference.
    pub pointee: Option<Box<TypeHandle>>,
    /// The canonical form, where it is another type than this one; `None`
    /// where this type is its own canonical form.
    pub canonical: Option<Box<TypeHandle>>,
    /// The size in bytes, where the front end can tell it.
    pub size: Option<usize>,
}

/// The mathematical value of a type description.
pub struct TypeModel {
    pub display_name: Seq<char>,
    pub kind: clang::TypeKind,
    pub pointee: Option<Box<TypeModel>>,
    pub canonical: Option<Box<TypeModel>>,
    pub size: Option<usize>,
}

/// An owned description of a type.
#[derive(Debug)]
pub struct FinchType {
    pub display_name: String,
    pub kind: clang::TypeKind,
    pub pointee_type: Option<Box<FinchType>>,
    pub canonical_type: Option<Box<FinchType>>,
    pub sizeof: Option<usize>,
}

impl View for FinchType {
    type V = TypeModel;

    open spec fn view(&self) -> TypeModel
        decreases self,
    {
        TypeModel {
            display_name: self.display_name@,
            kind: self.kind,
            pointee: match self.pointee_type {
                Some(p) => Some(Box::new((*p).view())),
                None => None,
            },
            canonical: match self.canonical_type {
                Some(c) => Some(Box::new((*c).view())),
                None => None,
            },
            size: self.sizeof,
        }
    }
}

/// The views of a sequence of type descriptions.
pub open spec fn types_view(v: Seq<FinchType>) -> Seq<TypeModel> {
    v.map_values(|t: FinchType| t@)
}

impl TypeHandle {
    /// The description of this type: its name, kind and size as they are, its
    /// pointee described where it has one, and its canonical form described
    /// exactly where that form is another type.
    pub open spec fn description(self) -> TypeModel
        decreases self,
    {
        TypeModel {
            display_name: self.display_name@,
            kind: self.kind,
            pointee: match self.pointee {
                Some(p) => Some(Box::new((*p).description())),
                None => None,
            },
            canonical: match self.canonical {
                Some(c) => Some(Box::new((*c).description())),
                None => None,
            },
            size: self.size,
        }
    }
}

impl Clone for FinchType {
    fn clone(&self) -> (out: FinchType)
        ensures
            out@ == self@,
    {
        self.duplicate()
    }
}

impl FinchType {
    /// A copy of this description, part by part.
    pub fn duplicate(&self) -> (out: FinchType)
        ensures
            out@ == self@,
        decreases self,
    {
        let pointee_type = match &self.pointee_type {
            Some(p) => Some(Box::new((**p).duplicate())),
            None => None,
        };
        let canonical_type = match &self.canonical_type {
            Some(c) => Some(Box::new((**c).duplicate())),
            None => None,
        };
        FinchType {
            display_name: self.display_name.clone(),
            kind: self.kind,
            pointee_type,
            canonical_type,
            sizeof: self.sizeof,
        }
    }

    /// Builds the description of a type from the front end's handle.
    pub fn from(value: &TypeHandle) -> (out: FinchType)
        ensures
            out@ == value.description(),
            out.canonical_type is None <==> value.canonical is None,
        decreases value,
    {
        let pointee_type = match &value.pointee {
            Some(p) => Some(Box::new(FinchType::from(&**p))),
            None => None,
        };
        let canonical_type = match &value.canonical {
            Some(c) => Some(Box::new(FinchType::from(&**c))),
            None => None,
        };
        FinchType {
            display_name: value.display_name.clone(),
            kind: value.kind,
            pointee_type,
            canonical_type,
            sizeof: value.size,
        }
    }
}

/// A description leaves the canonical form out if and only if the type is its
/// own canonical form.
pub proof fn canonical_omitted_iff_own_form(value: TypeHandle)
    ensures
        value.description().canonical is None <==> value.canonical is None,
{
}

/// The description of a pointer holds the description of what it points to.
pub proof fn pointee_described(value: TypeHandle)
    requires
        value.pointee is Some,
    ensures
        value.description().pointee == Some(Box::new((*value.pointee->0).description())),
{
}

} // verus!
