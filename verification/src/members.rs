//! The members of a class: constructor, destructor, methods, static
//! functions, getters and setters, each built from one function declaration.

use vstd::prelude::*;
use crate::decl::{arg_names_of, arg_resolved, arg_types_of, args_resolved, Argument, Entity};
use crate::error::{agrees, ErrorModel, FinchError};
use crate::text::{opt_view, strings_view};
use crate::types::{types_view, FinchType, TypeModel};

verus! {

/// A copy of an optional string.
pub fn clone_opt(o: &Option<String>) -> (out: Option<String>)
    ensures
        opt_view(out) == opt_view(*o),
{
    match o {
        Some(s) => Some(s.clone()),
        None => None,
    }
}

/// The names and the described types of the arguments from index `from` on,
/// or `None` where one of them lacks its name or its resolved type.
pub(crate) fn gather_arguments(args: &Vec<Argument>, from: usize) -> (out: Option<
    (Vec<String>, Vec<FinchType>),
>)
    requires
        from <= args.len(),
    ensures
        out is Some <==> args_resolved(args@.skip(from as int)),
        out matches Some(pair) ==> strings_view(pair.0@) == arg_names_of(args@.skip(from as int))
            && types_view(pair.1@) == arg_types_of(args@.skip(from as int)),
{
    let ghost rest = args@.skip(from as int);
    let mut names: Vec<String> = Vec::new();
    let mut types: Vec<FinchType> = Vec::new();
    let mut i: usize = from;
    while i < args.len()
        invariant
            from <= i <= args.len(),
            rest == args@.skip(from as int),
            names@.len() == i - from,
            types@.len() == i - from,
            forall|j: int| 0 <= j < i - from ==> arg_resolved(#[trigger] rest[j]),
            forall|j: int| 0 <= j < i - from ==> (#[trigger] names@[j])@ == rest[j].display_name->0@,
            forall|j: int|
                0 <= j < i - from ==> (#[trigger] types@[j])@
                    == rest[j].type_handle->0.description(),
        decreases args.len() - i,
    {
        let arg = &args[i];
        assert(rest[i - from] == *arg);
        match (&arg.display_name, &arg.type_handle) {
            (Some(name), Some(handle)) => {
                names.push(name.clone());
                types.push(FinchType::from(handle));
            },
            _ => {
                return None;
            },
        }
        i += 1;
    }
    assert(strings_view(names@) =~= arg_names_of(rest));
    assert(types_view(types@) =~= arg_types_of(rest));
    Some((names, types))
}

/// The constructor of a class.
#[derive(Clone, Debug)]
pub struct FinchNew {
    pub class_name: String,
    pub fn_name: String,
    pub c_fn_name: String,
    pub arg_names: Vec<String>,
    pub arg_types: Vec<FinchType>,
    pub comments: Option<String>,
}

/// The mathematical value of a `FinchNew`.
pub struct NewModel {
    pub class_name: Seq<char>,
    pub fn_name: Seq<char>,
    pub c_fn_name: Seq<char>,
    pub arg_names: Seq<Seq<char>>,
    pub arg_types: Seq<TypeModel>,
    pub comments: Option<Seq<char>>,
}

impl View for FinchNew {
    type V = NewModel;

    open spec fn view(&self) -> NewModel {
        NewModel {
            class_name: self.class_name@,
            fn_name: self.fn_name@,
            c_fn_name: self.c_fn_name@,
            arg_names: strings_view(self.arg_names@),
            arg_types: types_view(self.arg_types@),
            comments: opt_view(self.comments),
        }
    }
}

/// The constructor that a declaration stands for: every argument with its
/// name and described type. An argument without a name or a resolved type is a failure.
pub open spec fn new_of(
    class_name: Seq<char>,
    fn_name: Seq<char>,
    c_fn_name: Seq<char>,
    e: Entity,
) -> Result<NewModel, ErrorModel> {
    if !args_resolved(e.arguments@) {
        Err(ErrorModel::Unresolved { function: c_fn_name })
    } else {
        Ok(
            NewModel {
                class_name,
                fn_name,
                c_fn_name,
                arg_names: arg_names_of(e.arguments@),
                arg_types: arg_types_of(e.arguments@),
                comments: opt_view(e.comment),
            },
        )
    }
}

impl FinchNew {
    /// Builds the constructor from its declaration.
    pub fn new(class_name: String, fn_name: String, c_fn_name: String, e: &Entity) -> (out: Result<
        FinchNew,
        FinchError,
    >)
        ensures
            agrees(out, new_of(class_name@, fn_name@, c_fn_name@, *e)),
    {
        assert(e.arguments@.skip(0) =~= e.arguments@);
        match gather_arguments(&e.arguments, 0) {
            None => Err(FinchError::Unresolved { function: c_fn_name }),
            Some((arg_names, arg_types)) => Ok(
                FinchNew {
                    class_name,
                    fn_name,
                    c_fn_name,
                    arg_names,
                    arg_types,
                    comments: clone_opt(&e.comment),
                },
            ),
        }
    }
}

/// The destructor of a class.
#[derive(Clone, Debug)]
pub struct FinchDrop {
    pub class_name: String,
    pub fn_name: String,
    pub c_fn_name: String,
}

/// The mathematical value of a `FinchDrop`.
pub struct DropModel {
    pub class_name: Seq<char>,
    pub fn_name: Seq<char>,
    pub c_fn_name: Seq<char>,
}

impl View for FinchDrop {
    type V = DropModel;

    open spec fn view(&self) -> DropModel {
        DropModel {
            class_name: self.class_name@,
            fn_name: self.fn_name@,
            c_fn_name: self.c_fn_name@,
        }
    }
}

/// A method of a class. The receiver is not among the arguments.
#[derive(Clone, Debug)]
pub struct FinchMethod {
    pub class_name: String,
    pub method_name: String,
    pub fn_name: String,
    pub c_fn_name: String,
    pub ret_type: FinchType,
    pub arg_names: Vec<String>,
    pub arg_types: Vec<FinchType>,
    pub comments: Option<String>,
    pub consume: bool,
}

/// The mathematical value of a `FinchMethod`.
pub struct MethodModel {
    pub class_name: Seq<char>,
    pub method_name: Seq<char>,
    pub fn_name: Seq<char>,
    pub c_fn_name: Seq<char>,
    pub ret_type: TypeModel,
    pub arg_names: Seq<Seq<char>>,
    pub arg_types: Seq<TypeModel>,
    pub comments: Option<Seq<char>>,
    pub consume: bool,
}

impl View for FinchMethod {
    type V = MethodModel;

    open spec fn view(&self) -> MethodModel {
        MethodModel {
            class_name: self.class_name@,
            method_name: self.method_name@,
            fn_name: self.fn_name@,
            c_fn_name: self.c_fn_name@,
            ret_type: self.ret_type@,
            arg_names: strings_view(self.arg_names@),
            arg_types: types_view(self.arg_types@),
            comments: opt_view(self.comments),
            consume: self.consume,
        }
    }
}

/// The method that a declaration stands for: the first argument is the
/// receiver and is left out, the others follow with name and described type.
/// A declaration without arguments has no receiver, which is a failure, and
/// so is a name or a type that is not resolved.
pub open spec fn method_of(
    class_name: Seq<char>,
    method_name: Seq<char>,
    fn_name: Seq<char>,
    c_fn_name: Seq<char>,
    consume: bool,
    e: Entity,
) -> Result<MethodModel, ErrorModel> {
    if e.arguments@.len() == 0 {
        Err(ErrorModel::MissingReceiver { function: c_fn_name })
    } else if !args_resolved(e.arguments@.skip(1)) || e.result_type is None {
        Err(ErrorModel::Unresolved { function: c_fn_name })
    } else {
        Ok(
            MethodModel {
                class_name,
                method_name,
                fn_name,
                c_fn_name,
                ret_type: e.result_type->0.description(),
                arg_names: arg_names_of(e.arguments@.skip(1)),
                arg_types: arg_types_of(e.arguments@.skip(1)),
                comments: opt_view(e.comment),
                consume,
            },
        )
    }
}

impl FinchMethod {
    /// Builds a method from its declaration.
    pub fn new(
        class_name: String,
        method_name: String,
        fn_name: String,
        c_fn_name: String,
        consume: bool,
        e: &Entity,
    ) -> (out: Result<FinchMethod, FinchError>)
        ensures
            agrees(out, method_of(class_name@, method_name@, fn_name@, c_fn_name@, consume, *e)),
    {
        if e.arguments.len() == 0 {
            return Err(FinchError::MissingReceiver { function: c_fn_name });
        }
        let gathered = gather_arguments(&e.arguments, 1);
        match (gathered, &e.result_type) {
            (Some((arg_names, arg_types)), Some(result)) => Ok(
                FinchMethod {
                    class_name,
                    method_name,
                    fn_name,
                    c_fn_name,
                    ret_type: FinchType::from(result),
                    arg_names,
                    arg_types,
                    comments: clone_opt(&e.comment),
                    consume,
                },
            ),
            _ => Err(FinchError::Unresolved { function: c_fn_name }),
        }
    }
}

/// A method's arguments are the declaration's arguments without the first.
pub proof fn method_strips_receiver(
    class_name: Seq<char>,
    method_name: Seq<char>,
    fn_name: Seq<char>,
    c_fn_name: Seq<char>,
    consume: bool,
    e: Entity,
)
    requires
        method_of(class_name, method_name, fn_name, c_fn_name, consume, e) is Ok,
    ensures
        e.arguments@.len() >= 1,
        method_of(class_name, method_name, fn_name, c_fn_name, consume, e)->Ok_0.arg_names
            == arg_names_of(e.arguments@).skip(1),
        method_of(class_name, method_name, fn_name, c_fn_name, consume, e)->Ok_0.arg_types
            == arg_types_of(e.arguments@).skip(1),
{
    assert(arg_names_of(e.arguments@.skip(1)) =~= arg_names_of(e.arguments@).skip(1));
    assert(arg_types_of(e.arguments@.skip(1)) =~= arg_types_of(e.arguments@).skip(1));
}

/// A static function of a class.
#[derive(Clone, Debug)]
pub struct FinchStatic {
    pub class_name: String,
    pub method_name: String,
    pub fn_name: String,
    pub c_fn_name: String,
    pub ret_type: FinchType,
    pub arg_names: Vec<String>,
    pub arg_types: Vec<FinchType>,
    pub comments: Option<String>,
}

/// The mathematical value of a `FinchStatic`.
pub struct StaticModel {
    pub class_name: Seq<char>,
    pub method_name: Seq<char>,
    pub fn_name: Seq<char>,
    pub c_fn_name: Seq<char>,
    pub ret_type: TypeModel,
    pub arg_names: Seq<Seq<char>>,
    pub arg_types: Seq<TypeModel>,
    pub comments: Option<Seq<char>>,
}

impl View for FinchStatic {
    type V = StaticModel;

    open spec fn view(&self) -> StaticModel {
        StaticModel {
            class_name: self.class_name@,
            method_name: self.method_name@,
            fn_name: self.fn_name@,
            c_fn_name: self.c_fn_name@,
            ret_type: self.ret_type@,
            arg_names: strings_view(self.arg_names@),
            arg_types: types_view(self.arg_types@),
            comments: opt_view(self.comments),
        }
    }
}

/// The static function that a declaration stands for: every argument with
/// its name and described type, and the described result type. A name or a
/// type that is not resolved is a failure.
pub open spec fn static_of(
    class_name: Seq<char>,
    method_name: Seq<char>,
    fn_name: Seq<char>,
    c_fn_name: Seq<char>,
    e: Entity,
) -> Result<StaticModel, ErrorModel> {
    if !args_resolved(e.arguments@) || e.result_type is None {
        Err(ErrorModel::Unresolved { function: c_fn_name })
    } else {
        Ok(
            StaticModel {
                class_name,
                method_name,
                fn_name,
                c_fn_name,
                ret_type: e.result_type->0.description(),
                arg_names: arg_names_of(e.arguments@),
                arg_types: arg_types_of(e.arguments@),
                comments: opt_view(e.comment),
            },
        )
    }
}

impl FinchStatic {
    /// Builds a static function from its declaration.
    pub fn new(
        class_name: String,
        method_name: String,
        fn_name: String,
        c_fn_name: String,
        e: &Entity,
    ) -> (out: Result<FinchStatic, FinchError>)
        ensures
            agrees(out, static_of(class_name@, method_name@, fn_name@, c_fn_name@, *e)),
    {
        assert(e.arguments@.skip(0) =~= e.arguments@);
        let gathered = gather_arguments(&e.arguments, 0);
        match (gathered, &e.result_type) {
            (Some((arg_names, arg_types)), Some(result)) => Ok(
                FinchStatic {
                    class_name,
                    method_name,
                    fn_name,
                    c_fn_name,
                    ret_type: FinchType::from(result),
                    arg_names,
                    arg_types,
                    comments: clone_opt(&e.comment),
                },
            ),
            _ => Err(FinchError::Unresolved { function: c_fn_name }),
        }
    }
}

/// The getter of a field.
#[derive(Clone, Debug)]
pub struct FinchGetter {
    pub class_name: String,
    pub field_name: String,
    pub fn_name: String,
    pub c_fn_name: String,
    pub type_: FinchType,
    pub comments: Option<String>,
}

/// The mathematical value of a `FinchGetter`.
pub struct GetterModel {
    pub class_name: Seq<char>,
    pub field_name: Seq<char>,
    pub fn_name: Seq<char>,
    pub c_fn_name: Seq<char>,
    pub type_: TypeModel,
    pub comments: Option<Seq<char>>,
}

impl View for FinchGetter {
    type V = GetterModel;

    open spec fn view(&self) -> GetterModel {
        GetterModel {
            class_name: self.class_name@,
            field_name: self.field_name@,
            fn_name: self.fn_name@,
            c_fn_name: self.c_fn_name@,
            type_: self.type_@,
            comments: opt_view(self.comments),
        }
    }
}

/// The getter that a declaration stands for: the field's type is the
/// declaration's result type, which must be resolved.
pub open spec fn getter_of(
    class_name: Seq<char>,
    field_name: Seq<char>,
    fn_name: Seq<char>,
    c_fn_name: Seq<char>,
    e: Entity,
) -> Result<GetterModel, ErrorModel> {
    if e.result_type is None {
        Err(ErrorModel::Unresolved { function: c_fn_name })
    } else {
        Ok(
            GetterModel {
                class_name,
                field_name,
                fn_name,
                c_fn_name,
                type_: e.result_type->0.description(),
                comments: opt_view(e.comment),
            },
        )
    }
}

impl FinchGetter {
    /// Builds a getter from its declaration.
    pub fn new(
        class_name: String,
        field_name: String,
        fn_name: String,
        c_fn_name: String,
        e: &Entity,
    ) -> (out: Result<FinchGetter, FinchError>)
        ensures
            agrees(out, getter_of(class_name@, field_name@, fn_name@, c_fn_name@, *e)),
    {
        match &e.result_type {
            Some(result) => Ok(
                FinchGetter {
                    class_name,
                    field_name,
                    fn_name,
                    c_fn_name,
                    type_: FinchType::from(result),
                    comments: clone_opt(&e.comment),
                },
            ),
            None => Err(FinchError::Unresolved { function: c_fn_name }),
        }
    }
}

/// The setter of a field.
#[derive(Clone, Debug)]
pub struct FinchSetter {
    pub class_name: String,
    pub field_name: String,
    pub fn_name: String,
    pub c_fn_name: String,
    pub type_: FinchType,
    pub comments: Option<String>,
}

/// The mathematical value of a `FinchSetter`.
pub struct SetterModel {
    pub class_name: Seq<char>,
    pub field_name: Seq<char>,
    pub fn_name: Seq<char>,
    pub c_fn_name: Seq<char>,
    pub type_: TypeModel,
    pub comments: Option<Seq<char>>,
}

impl View for FinchSetter {
    type V = SetterModel;

    open spec fn view(&self) -> SetterModel {
        SetterModel {
            class_name: self.class_name@,
            field_name: self.field_name@,
            fn_name: self.fn_name@,
            c_fn_name: self.c_fn_name@,
            type_: self.type_@,
            comments: opt_view(self.comments),
        }
    }
}

/// The setter that a declaration stands for: the field's type is the type of
/// the second argument, the first being the receiver. A declaration with
/// fewer than two arguments is a failure, and so is a second argument whose
/// type is not resolved.
pub open spec fn setter_of(
    class_name: Seq<char>,
    field_name: Seq<char>,
    fn_name: Seq<char>,
    c_fn_name: Seq<char>,
    e: Entity,
) -> Result<SetterModel, ErrorModel> {
    if e.arguments@.len() < 2 {
        Err(ErrorModel::MissingValue { function: c_fn_name })
    } else if e.arguments@[1].type_handle is None {
        Err(ErrorModel::Unresolved { function: c_fn_name })
    } else {
        Ok(
            SetterModel {
                class_name,
                field_name,
                fn_name,
                c_fn_name,
                type_: e.arguments@[1].type_handle->0.description(),
                comments: opt_view(e.comment),
            },
        )
    }
}

impl FinchSetter {
    /// Builds a setter from its declaration.
    pub fn new(
        class_name: String,
        field_name: String,
        fn_name: String,
        c_fn_name: String,
        e: &Entity,
    ) -> (out: Result<FinchSetter, FinchError>)
        ensures
            agrees(out, setter_of(class_name@, field_name@, fn_name@, c_fn_name@, *e)),
    {
        if e.arguments.len() < 2 {
            return Err(FinchError::MissingValue { function: c_fn_name });
        }
        match &e.arguments[1].type_handle {
            Some(value) => Ok(
                FinchSetter {
                    class_name,
                    field_name,
                    fn_name,
                    c_fn_name,
                    type_: FinchType::from(value),
                    comments: clone_opt(&e.comment),
                },
            ),
            None => Err(FinchError::Unresolved { function: c_fn_name }),
        }
    }
}

} // verus!
