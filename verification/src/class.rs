//! A class with the members found for it, and the table of classes.

use vstd::prelude::*;
use crate::decl::Entity;
use crate::error::{ErrorModel, FinchError};
use crate::ident::{Role, RoleModel};
use crate::members::{
    clone_opt, getter_of, method_of, new_of, setter_of, static_of, DropModel, FinchDrop, FinchGetter, FinchMethod, FinchNew, FinchSetter, FinchStatic,
    GetterModel, MethodModel, NewModel, SetterModel, StaticModel,
};
use crate::text::opt_view;

verus! {

/// A class and its members. The lists keep the order in which the members
/// were declared; the constructor and the destructor are those declared last.
#[derive(Clone, Debug)]
pub struct FinchClass {
    pub name: String,
    pub c_name: String,
    pub comments: Option<String>,
    pub new: Option<FinchNew>,
    pub drop: Option<FinchDrop>,
    pub statics: Vec<FinchStatic>,
    pub methods: Vec<FinchMethod>,
    pub getters: Vec<FinchGetter>,
    pub setters: Vec<FinchSetter>,
}

/// The mathematical value of a `FinchClass`.
pub struct ClassModel {
    pub name: Seq<char>,
    pub c_name: Seq<char>,
    pub comments: Option<Seq<char>>,
    pub new: Option<NewModel>,
    pub drop: Option<DropModel>,
    pub statics: Seq<StaticModel>,
    pub methods: Seq<MethodModel>,
    pub getters: Seq<GetterModel>,
    pub setters: Seq<SetterModel>,
}

impl View for FinchClass {
    type V = ClassModel;

    open spec fn view(&self) -> ClassModel {
        ClassModel {
            name: self.name@,
            c_name: self.c_name@,
            comments: opt_view(self.comments),
            new: match self.new {
                Some(m) => Some(m@),
                None => None,
            },
            drop: match self.drop {
                Some(m) => Some(m@),
                None => None,
            },
            statics: self.statics@.map_values(|m: FinchStatic| m@),
            methods: self.methods@.map_values(|m: FinchMethod| m@),
            getters: self.getters@.map_values(|m: FinchGetter| m@),
            setters: self.setters@.map_values(|m: FinchSetter| m@),
        }
    }
}

/// A class without members.
pub open spec fn empty_class(
    name: Seq<char>,
    c_name: Seq<char>,
    comments: Option<Seq<char>>,
) -> ClassModel {
    ClassModel {
        name,
        c_name,
        comments,
        new: None,
        drop: None,
        statics: Seq::empty(),
        methods: Seq::empty(),
        getters: Seq::empty(),
        setters: Seq::empty(),
    }
}

/// The class with the member that a declaration stands for: the constructor
/// and the destructor take the place of an earlier one, every other member
/// goes behind those of its kind. Where the member cannot be built the
/// failure is the result. A role that names no member leaves the class as it is.
pub open spec fn attached(
    class: ClassModel,
    role: RoleModel,
    fn_name: Seq<char>,
    c_fn_name: Seq<char>,
    e: Entity,
) -> Result<ClassModel, ErrorModel> {
    match role {
        RoleModel::Drop => Ok(
            ClassModel {
                drop: Some(DropModel { class_name: class.name, fn_name, c_fn_name }),
                ..class
            },
        ),
        RoleModel::Method { name, consume } => match method_of(
            class.name,
            name,
            fn_name,
            c_fn_name,
            consume,
            e,
        ) {
            Ok(m) => Ok(ClassModel { methods: class.methods.push(m), ..class }),
            Err(err) => Err(err),
        },
        RoleModel::Constructor => match new_of(class.name, fn_name, c_fn_name, e) {
            Ok(m) => Ok(ClassModel { new: Some(m), ..class }),
            Err(err) => Err(err),
        },
        RoleModel::Static { name } => match static_of(class.name, name, fn_name, c_fn_name, e) {
            Ok(m) => Ok(ClassModel { statics: class.statics.push(m), ..class }),
            Err(err) => Err(err),
        },
        RoleModel::Getter { name } => match getter_of(class.name, name, fn_name, c_fn_name, e) {
            Ok(m) => Ok(ClassModel { getters: class.getters.push(m), ..class }),
            Err(err) => Err(err),
        },
        RoleModel::Setter { name } => match setter_of(class.name, name, fn_name, c_fn_name, e) {
            Ok(m) => Ok(ClassModel { setters: class.setters.push(m), ..class }),
            Err(err) => Err(err),
        },
        RoleModel::Unknown { keyword } => Ok(class),
        RoleModel::Incomplete => Ok(class),
    }
}

/// Attaching a member keeps every member that the class has, in its place:
/// each list is as it was, but for the one of the member's kind, which has
/// the new member as its last element.
pub proof fn lists_grow_at_the_end(
    class: ClassModel,
    role: RoleModel,
    fn_name: Seq<char>,
    c_fn_name: Seq<char>,
    e: Entity,
)
    requires
        attached(class, role, fn_name, c_fn_name, e) is Ok,
    ensures
        ({
            let after = attached(class, role, fn_name, c_fn_name, e)->Ok_0;
            &&& after.name == class.name
            &&& after.c_name == class.c_name
            &&& after.comments == class.comments
            &&& match role {
                RoleModel::Method { name, consume } => after.methods == class.methods.push(
                    method_of(class.name, name, fn_name, c_fn_name, consume, e)->Ok_0,
                ),
                _ => after.methods == class.methods,
            }
            &&& match role {
                RoleModel::Static { name } => after.statics == class.statics.push(
                    static_of(class.name, name, fn_name, c_fn_name, e)->Ok_0,
                ),
                _ => after.statics == class.statics,
            }
            &&& match role {
                RoleModel::Getter { name } => after.getters == class.getters.push(
                    getter_of(class.name, name, fn_name, c_fn_name, e)->Ok_0,
                ),
                _ => after.getters == class.getters,
            }
            &&& match role {
                RoleModel::Setter { name } => after.setters == class.setters.push(
                    setter_of(class.name, name, fn_name, c_fn_name, e)->Ok_0,
                ),
                _ => after.setters == class.setters,
            }
        }),
{
}

/// `later` begins with the elements of `earlier`, in their order.
pub open spec fn kept<T>(earlier: Seq<T>, later: Seq<T>) -> bool {
    &&& earlier.len() <= later.len()
    &&& forall|j: int| 0 <= j < earlier.len() ==> #[trigger] later[j] == earlier[j]
}

/// `later` is the class `earlier` with, at most, members added: its name, its
/// qualified name and its documentation are the same, and each list begins
/// with the members that it had, in the order that they had.
pub open spec fn class_grown(earlier: ClassModel, later: ClassModel) -> bool {
    &&& later.name == earlier.name
    &&& later.c_name == earlier.c_name
    &&& later.comments == earlier.comments
    &&& kept(earlier.statics, later.statics)
    &&& kept(earlier.methods, later.methods)
    &&& kept(earlier.getters, later.getters)
    &&& kept(earlier.setters, later.setters)
}

/// `later` holds every class of `earlier` at its place, grown at most.
pub open spec fn table_grown(earlier: Seq<ClassModel>, later: Seq<ClassModel>) -> bool {
    &&& earlier.len() <= later.len()
    &&& forall|i: int| 0 <= i < earlier.len() ==> class_grown(earlier[i], #[trigger] later[i])
}

/// A table grown twice is grown.
pub proof fn table_grown_twice(a: Seq<ClassModel>, b: Seq<ClassModel>, c: Seq<ClassModel>)
    requires
        table_grown(a, b),
        table_grown(b, c),
    ensures
        table_grown(a, c),
{
    assert forall|i: int| 0 <= i < a.len() implies class_grown(a[i], #[trigger] c[i]) by {
        assert(class_grown(a[i], b[i]));
        assert(class_grown(b[i], c[i]));
    }
}

/// Attaching a member to a class grows it, and every member names the class
/// that it is attached to.
pub proof fn attached_grows(
    class: ClassModel,
    role: RoleModel,
    fn_name: Seq<char>,
    c_fn_name: Seq<char>,
    e: Entity,
)
    requires
        attached(class, role, fn_name, c_fn_name, e) is Ok,
    ensures
        class_grown(class, attached(class, role, fn_name, c_fn_name, e)->Ok_0),
        role is Method ==> attached(
            class,
            role,
            fn_name,
            c_fn_name,
            e,
        )->Ok_0.methods.last().class_name == class.name,
        role is Static ==> attached(
            class,
            role,
            fn_name,
            c_fn_name,
            e,
        )->Ok_0.statics.last().class_name == class.name,
        role is Getter ==> attached(
            class,
            role,
            fn_name,
            c_fn_name,
            e,
        )->Ok_0.getters.last().class_name == class.name,
        role is Setter ==> attached(
            class,
            role,
            fn_name,
            c_fn_name,
            e,
        )->Ok_0.setters.last().class_name == class.name,
        role is Drop ==> attached(class, role, fn_name, c_fn_name, e)->Ok_0.drop->0.class_name
            == class.name,
        role is Constructor ==> attached(class, role, fn_name, c_fn_name, e)->Ok_0.new->0.class_name
            == class.name,
{
}

/// Of two destructors attached one after the other the class keeps the
/// second, and so of two constructors.
pub proof fn last_slot_wins(
    class: ClassModel,
    first_fn: Seq<char>,
    first_c_fn: Seq<char>,
    first: Entity,
    second_fn: Seq<char>,
    second_c_fn: Seq<char>,
    second: Entity,
)
    ensures
        ({
            let once = attached(class, RoleModel::Drop, first_fn, first_c_fn, first)->Ok_0;
            attached(once, RoleModel::Drop, second_fn, second_c_fn, second)->Ok_0.drop == Some(
                DropModel { class_name: class.name, fn_name: second_fn, c_fn_name: second_c_fn },
            )
        }),
        ({
            let once = attached(class, RoleModel::Constructor, first_fn, first_c_fn, first);
            let twice = attached(once->Ok_0, RoleModel::Constructor, second_fn, second_c_fn, second);
            once is Ok && twice is Ok ==> twice->Ok_0.new == Some(
                new_of(class.name, second_fn, second_c_fn, second)->Ok_0,
            )
        }),
{
}

impl FinchClass {
    /// Builds the member that `role` names from the declaration `e` and gives
    /// it its place in the class. On a failure the class is as it was.
    pub fn attach(&mut self, role: Role, fn_name: String, c_fn_name: String, e: &Entity) -> (out:
        Result<(), FinchError>)
        ensures
            match attached(old(self)@, role@, fn_name@, c_fn_name@, *e) {
                Ok(class) => out is Ok && final(self)@ == class,
                Err(err) => out is Err && out->Err_0@ == err && final(self)@ == old(self)@,
            },
    {
        let class_name = self.name.clone();
        match role {
            Role::Drop => {
                self.set_drop(FinchDrop { class_name, fn_name, c_fn_name });
                Ok(())
            },
            Role::Method { name, consume } => {
                match FinchMethod::new(class_name, name, fn_name, c_fn_name, consume, e) {
                    Ok(m) => {
                        self.add_method(m);
                        Ok(())
                    },
                    Err(err) => Err(err),
                }
            },
            Role::Constructor => {
                match FinchNew::new(class_name, fn_name, c_fn_name, e) {
                    Ok(m) => {
                        self.set_new(m);
                        Ok(())
                    },
                    Err(err) => Err(err),
                }
            },
            Role::Static { name } => {
                match FinchStatic::new(class_name, name, fn_name, c_fn_name, e) {
                    Ok(m) => {
                        self.add_static(m);
                        Ok(())
                    },
                    Err(err) => Err(err),
                }
            },
            Role::Getter { name } => {
                match FinchGetter::new(class_name, name, fn_name, c_fn_name, e) {
                    Ok(m) => {
                        self.add_getter(m);
                        Ok(())
                    },
                    Err(err) => Err(err),
                }
            },
            Role::Setter { name } => {
                match FinchSetter::new(class_name, name, fn_name, c_fn_name, e) {
                    Ok(m) => {
                        self.add_setter(m);
                        Ok(())
                    },
                    Err(err) => Err(err),
                }
            },
            Role::Unknown { keyword } => Ok(()),
            Role::Incomplete => Ok(()),
        }
    }

    /// A class without members, documented as the declaration `e` is.
    pub fn new(name: String, c_name: String, e: &Entity) -> (out: FinchClass)
        ensures
            out@ == empty_class(name@, c_name@, opt_view(e.comment)),
    {
        let out = FinchClass {
            name,
            c_name,
            comments: clone_opt(&e.comment),
            new: None,
            drop: None,
            statics: Vec::new(),
            methods: Vec::new(),
            getters: Vec::new(),
            setters: Vec::new(),
        };
        assert(out@.statics =~= Seq::empty());
        assert(out@.methods =~= Seq::empty());
        assert(out@.getters =~= Seq::empty());
        assert(out@.setters =~= Seq::empty());
        out
    }

    /// Sets the constructor, in place of an earlier one.
    pub fn set_new(&mut self, member: FinchNew)
        ensures
            final(self)@ == (ClassModel { new: Some(member@), ..old(self)@ }),
    {
        self.new = Some(member);
    }

    /// Sets the destructor, in place of an earlier one.
    pub fn set_drop(&mut self, member: FinchDrop)
        ensures
            final(self)@ == (ClassModel { drop: Some(member@), ..old(self)@ }),
    {
        self.drop = Some(member);
    }

    /// Adds a static function behind those that are there.
    pub fn add_static(&mut self, member: FinchStatic)
        ensures
            final(self)@ == (ClassModel {
                statics: old(self)@.statics.push(member@),
                ..old(self)@
            }),
    {
        self.statics.push(member);
        assert(self@.statics =~= old(self)@.statics.push(member@));
    }

    /// Adds a method behind those that are there.
    pub fn add_method(&mut self, member: FinchMethod)
        ensures
            final(self)@ == (ClassModel {
                methods: old(self)@.methods.push(member@),
                ..old(self)@
            }),
    {
        self.methods.push(member);
        assert(self@.methods =~= old(self)@.methods.push(member@));
    }

    /// Adds a getter behind those that are there.
    pub fn add_getter(&mut self, member: FinchGetter)
        ensures
            final(self)@ == (ClassModel {
                getters: old(self)@.getters.push(member@),
                ..old(self)@
            }),
    {
        self.getters.push(member);
        assert(self@.getters =~= old(self)@.getters.push(member@));
    }

    /// Adds a setter behind those that are there.
    pub fn add_setter(&mut self, member: FinchSetter)
        ensures
            final(self)@ == (ClassModel {
                setters: old(self)@.setters.push(member@),
                ..old(self)@
            }),
    {
        self.setters.push(member);
        assert(self@.setters =~= old(self)@.setters.push(member@));
    }
}

/// The views of a sequence of classes.
pub open spec fn classes_view(v: Seq<FinchClass>) -> Seq<ClassModel> {
    v.map_values(|c: FinchClass| c@)
}

/// The class at position `i` is named `name`, and none before it is.
pub open spec fn is_first_named(classes: Seq<ClassModel>, name: Seq<char>, i: int) -> bool {
    &&& 0 <= i < classes.len()
    &&& classes[i].name == name
    &&& forall|j: int| 0 <= j < i ==> (#[trigger] classes[j]).name != name
}

/// A class of that name is in the table.
pub open spec fn known(classes: Seq<ClassModel>, name: Seq<char>) -> bool {
    exists|i: int| 0 <= i < classes.len() && (#[trigger] classes[i]).name == name
}

/// The position of the class of that name, where the table has one.
pub open spec fn position(classes: Seq<ClassModel>, name: Seq<char>) -> int {
    choose|i: int| is_first_named(classes, name, i)
}

/// No two classes of the table have the same name.
pub open spec fn distinct_names(classes: Seq<ClassModel>) -> bool {
    forall|i: int, j: int|
        0 <= i < j < classes.len() ==> (#[trigger] classes[i]).name != (#[trigger] classes[j]).name
}

/// Looks a class up by its name.
pub fn find_class(classes: &Vec<FinchClass>, name: &str) -> (out: Option<usize>)
    ensures
        out is Some <==> known(classes_view(classes@), name@),
        out matches Some(i) ==> i == position(classes_view(classes@), name@) && is_first_named(
            classes_view(classes@),
            name@,
            i as int,
        ),
{
    let ghost models = classes_view(classes@);
    let mut i: usize = 0;
    while i < classes.len()
        invariant
            i <= classes.len(),
            models == classes_view(classes@),
            forall|j: int| 0 <= j < i ==> (#[trigger] models[j]).name != name@,
        decreases classes.len() - i,
    {
        if crate::text::str_eq(classes[i].name.as_str(), name) {
            assert(is_first_named(models, name@, i as int));
            return Some(i);
        }
        i += 1;
    }
    None
}

} // verus!
