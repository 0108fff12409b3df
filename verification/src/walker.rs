//! The walk over the declaration tree: namespaces open the scope in which
//! linkage names are decoded, type aliases introduce classes, and function
//! declarations give the classes their members.

use vstd::prelude::*;
use vstd::string::*;
use crate::class::{
    attached, classes_view, distinct_names, empty_class, find_class, known, position, ClassModel,
    FinchClass,
};
use crate::decl::{Entity, EntityKind};
use crate::error::{quote, quoted, ErrorModel, FinchError};
use crate::ident::{decode, decoding, Decoded, DecodedModel, Role, RoleModel};
use crate::text::{opt_view, str_eq};

verus! {

/// A declaration or a namespace that the walk passed over.
#[derive(Clone, Debug)]
pub enum Warning {
    /// A namespace stands where none is expected.
    UnknownNamespace { name: String },
    /// A linkage name, or a word in it, is not understood.
    UnknownIdentifier { text: String },
    /// A linkage name belongs to another package than the one walked.
    PackageMismatch { expected: String, found: String },
}

/// The mathematical value of a `Warning`.
pub enum WarningModel {
    UnknownNamespace { name: Seq<char> },
    UnknownIdentifier { text: Seq<char> },
    PackageMismatch { expected: Seq<char>, found: Seq<char> },
}

impl View for Warning {
    type V = WarningModel;

    open spec fn view(&self) -> WarningModel {
        match *self {
            Warning::UnknownNamespace { name } => WarningModel::UnknownNamespace { name: name@ },
            Warning::UnknownIdentifier { text } => WarningModel::UnknownIdentifier { text: text@ },
            Warning::PackageMismatch { expected, found } => WarningModel::PackageMismatch {
                expected: expected@,
                found: found@,
            },
        }
    }
}

/// The text of a warning.
pub open spec fn warning_text(w: WarningModel) -> Seq<char> {
    match w {
        WarningModel::UnknownNamespace { name } => quoted("unknown namespace found '"@, name),
        WarningModel::UnknownIdentifier { text } => quoted("unknown identifier found '"@, text),
        WarningModel::PackageMismatch { expected, found } => quoted(
            quoted("namespace mismatch, expected '"@, expected) + ", got '"@,
            found,
        ),
    }
}

impl Warning {
    /// The text of the warning, which names what was passed over.
    pub fn message(&self) -> (out: String)
        ensures
            out@ == warning_text(self@),
    {
        match self {
            Warning::UnknownNamespace { name } => quote("unknown namespace found '", name),
            Warning::UnknownIdentifier { text } => quote("unknown identifier found '", text),
            Warning::PackageMismatch { expected, found } => {
                let mut head = quote("namespace mismatch, expected '", expected);
                head.append(", got '");
                quote(head.as_str(), found)
            },
        }
    }
}

/// Where the walk stands: which of the expected namespaces it has entered,
/// the classes found so far, each name once, and the warnings given so far.
#[derive(Clone, Debug)]
pub struct ParserState {
    pub in_finch: bool,
    pub in_internal: bool,
    pub namespace: Option<String>,
    pub classes: Vec<FinchClass>,
    pub warnings: Vec<Warning>,
}

/// The mathematical value of a `ParserState`.
pub struct StateModel {
    pub in_finch: bool,
    pub in_internal: bool,
    pub namespace: Option<Seq<char>>,
    pub classes: Seq<ClassModel>,
    pub warnings: Seq<WarningModel>,
}

impl View for ParserState {
    type V = StateModel;

    open spec fn view(&self) -> StateModel {
        StateModel {
            in_finch: self.in_finch,
            in_internal: self.in_internal,
            namespace: opt_view(self.namespace),
            classes: classes_view(self.classes@),
            warnings: self.warnings@.map_values(|w: Warning| w@),
        }
    }
}

/// A state, and the failure that ended the walk there, if one did.
pub struct Outcome {
    pub state: StateModel,
    pub failure: Option<ErrorModel>,
}

/// The state before anything is walked.
pub open spec fn initial_state() -> StateModel {
    StateModel {
        in_finch: false,
        in_internal: false,
        namespace: None,
        classes: Seq::empty(),
        warnings: Seq::empty(),
    }
}

/// The walk goes on from `st`.
pub open spec fn going(st: StateModel) -> Outcome {
    Outcome { state: st, failure: None }
}

/// The walk ended at `st` on `err`.
pub open spec fn failed(st: StateModel, err: ErrorModel) -> Outcome {
    Outcome { state: st, failure: Some(err) }
}

/// The state with one more warning.
pub open spec fn warned(st: StateModel, w: WarningModel) -> StateModel {
    StateModel { warnings: st.warnings.push(w), ..st }
}

/// Linkage names are decoded: both outer namespaces are entered and the
/// package is known.
pub open spec fn eligible(st: StateModel) -> bool {
    st.in_finch && st.in_internal && st.namespace is Some
}

/// A name as the header qualifies it in a package.
pub open spec fn qualified(package: Seq<char>, name: Seq<char>) -> Seq<char> {
    "finch::bindgen::"@ + package + "::"@ + name
}

/// The state inside a namespace that the walk enters: the outermost one is
/// named `finch`, the one inside it `bindgen`, and the first one inside both
/// names the package. Any other namespace is not entered.
pub open spec fn entered(st: StateModel, name: Seq<char>) -> Option<StateModel> {
    if !st.in_finch {
        if name == "finch"@ {
            Some(StateModel { in_finch: true, ..st })
        } else {
            None
        }
    } else if !st.in_internal {
        if name == "bindgen"@ {
            Some(StateModel { in_internal: true, ..st })
        } else {
            None
        }
    } else if st.namespace is None {
        Some(StateModel { namespace: Some(name), ..st })
    } else {
        None
    }
}

/// The state behind a namespace that is not entered: inside `finch` it gets
/// a warning, outside it is passed over in silence.
pub open spec fn passed_namespace(st: StateModel, name: Seq<char>) -> StateModel {
    if st.in_finch {
        warned(st, WarningModel::UnknownNamespace { name })
    } else {
        st
    }
}

/// The warning for a linkage name that names no class of the package.
pub open spec fn skip_warning(d: DecodedModel, name: Seq<char>, package: Seq<char>) -> WarningModel {
    match d {
        DecodedModel::PackageMismatch { found } => WarningModel::PackageMismatch {
            expected: package,
            found,
        },
        DecodedModel::UnknownScope { scope } => WarningModel::UnknownIdentifier { text: scope },
        _ => WarningModel::UnknownIdentifier { text: name },
    }
}

/// The outcome of a type alias: a class of the decoded name is added where
/// the table has none of that name; a name that names no class of the package
/// gets a warning. An alias without a name ends the walk, and so does the
/// handle of a class without a displayed name.
pub open spec fn after_alias(st: StateModel, e: Entity) -> Outcome {
    if !eligible(st) {
        going(st)
    } else if e.name is None {
        failed(st, ErrorModel::Unnamed)
    } else {
        let package = st.namespace->0;
        match decoding(e.name->0@, package) {
            DecodedModel::Class { class_name, role } => if e.display_name is None {
                failed(st, ErrorModel::Unnamed)
            } else if known(st.classes, class_name) {
                going(st)
            } else {
                going(
                    StateModel {
                        classes: st.classes.push(
                            empty_class(
                                class_name,
                                qualified(package, e.display_name->0@),
                                opt_view(e.comment),
                            ),
                        ),
                        ..st
                    },
                )
            },
            d => going(warned(st, skip_warning(d, e.name->0@, package))),
        }
    }
}

/// The outcome of a function declaration: its class must be in the table,
/// else the walk ends; the member is then built and attached to that class.
/// A name that names no class of the package, or no member, gets a warning.
/// A function without a name ends the walk.
pub open spec fn after_function(st: StateModel, e: Entity) -> Outcome {
    if !eligible(st) {
        going(st)
    } else if e.name is None {
        failed(st, ErrorModel::Unnamed)
    } else {
        let package = st.namespace->0;
        match decoding(e.name->0@, package) {
            DecodedModel::Class { class_name, role } => if !known(st.classes, class_name) {
                failed(st, ErrorModel::ClassNotFound { class_name })
            } else {
                match role {
                    RoleModel::Unknown { keyword } => going(
                        warned(st, WarningModel::UnknownIdentifier { text: keyword }),
                    ),
                    RoleModel::Incomplete => going(
                        warned(st, WarningModel::UnknownIdentifier { text: e.name->0@ }),
                    ),
                    _ => {
                        let i = position(st.classes, class_name);
                        match attached(
                            st.classes[i],
                            role,
                            qualified(package, e.name->0@),
                            e.name->0@,
                            e,
                        ) {
                            Ok(class) => going(
                                StateModel { classes: st.classes.update(i, class), ..st },
                            ),
                            Err(err) => failed(st, err),
                        }
                    },
                }
            },
            d => going(warned(st, skip_warning(d, e.name->0@, package))),
        }
    }
}

/// The outcome of walking one declaration with everything below it.
pub open spec fn walk_entity(st: StateModel, e: Entity) -> Outcome
    decreases e, 0nat,
{
    match e.kind {
        EntityKind::TranslationUnit => walk_children(st, e.children@, e.children@.len() as int),
        EntityKind::Namespace => if e.display_name is None {
            failed(st, ErrorModel::Unnamed)
        } else {
            match entered(st, e.display_name->0@) {
                Some(inner) => walk_children(inner, e.children@, e.children@.len() as int),
                None => going(passed_namespace(st, e.display_name->0@)),
            }
        },
        EntityKind::UnexposedDecl => if st.in_finch && st.in_internal {
            walk_children(st, e.children@, e.children@.len() as int)
        } else {
            going(st)
        },
        EntityKind::TypeAliasDecl => after_alias(st, e),
        EntityKind::FunctionDecl => after_function(st, e),
        EntityKind::Other => going(st),
    }
}

/// The outcome of walking the first `count` of `children` in order: the walk
/// ends at the first failure.
pub open spec fn walk_children(st: StateModel, children: Seq<Entity>, count: int) -> Outcome
    decreases children, count,
{
    if count <= 0 || count > children.len() {
        going(st)
    } else {
        let before = walk_children(st, children, count - 1);
        if before.failure is Some {
            before
        } else {
            walk_entity(before.state, children[count - 1])
        }
    }
}

/// The state `after` and the result `out` are the outcome `o`.
pub open spec fn reached(after: StateModel, out: Result<(), FinchError>, o: Outcome) -> bool {
    &&& after == o.state
    &&& match out {
        Ok(_) => o.failure is None,
        Err(err) => o.failure == Some(err@),
    }
}

/// Qualifies a name as the header does in a package.
pub fn qualify(package: &str, name: &str) -> (out: String)
    ensures
        out@ == qualified(package@, name@),
{
    let mut out = String::from_str("finch::bindgen::");
    out.append(package);
    out.append("::");
    out.append(name);
    out
}

impl ParserState {
    /// The state before anything is walked.
    pub fn new() -> (out: ParserState)
        ensures
            out@ == initial_state(),
    {
        let out = ParserState {
            in_finch: false,
            in_internal: false,
            namespace: None,
            classes: Vec::new(),
            warnings: Vec::new(),
        };
        assert(out@.classes =~= Seq::empty());
        assert(out@.warnings =~= Seq::empty());
        out
    }

    /// Notes a warning.
    pub fn warn(&mut self, w: Warning)
        ensures
            final(self)@ == warned(old(self)@, w@),
    {
        self.warnings.push(w);
        assert(self@.warnings =~= old(self)@.warnings.push(w@));
    }
}

/// The warning for a linkage name that names no class of the package.
fn warning_for(d: Decoded, name: &str, package: &str) -> (out: Warning)
    ensures
        out@ == skip_warning(d@, name@, package@),
{
    match d {
        Decoded::PackageMismatch { found } => Warning::PackageMismatch {
            expected: String::from_str(package),
            found,
        },
        Decoded::UnknownScope { scope } => Warning::UnknownIdentifier { text: scope },
        _ => Warning::UnknownIdentifier { text: String::from_str(name) },
    }
}

/// Handles a type alias: the handle of a class.
pub fn process_alias(state: &mut ParserState, e: &Entity) -> (out: Result<(), FinchError>)
    ensures
        reached(final(state)@, out, after_alias(old(state)@, *e)),
        distinct_names(old(state)@.classes) ==> distinct_names(final(state)@.classes),
{
    if !state.in_finch || !state.in_internal {
        return Ok(());
    }
    let package = match &state.namespace {
        Some(p) => p.clone(),
        None => {
            return Ok(());
        },
    };
    let name = match &e.name {
        Some(name) => name.as_str(),
        None => {
            return Err(FinchError::Unnamed);
        },
    };
    match decode(name, package.as_str()) {
        Decoded::Class { class_name, role } => {
            let display_name = match &e.display_name {
                Some(display_name) => display_name.as_str(),
                None => {
                    return Err(FinchError::Unnamed);
                },
            };
            if find_class(&state.classes, class_name.as_str()).is_none() {
                let c_name = qualify(package.as_str(), display_name);
                let class = FinchClass::new(class_name, c_name, e);
                state.classes.push(class);
                assert(state@.classes =~= old(state)@.classes.push(class@));
            }
        },
        d => {
            let w = warning_for(d, name, package.as_str());
            state.warn(w);
        },
    }
    Ok(())
}

/// Handles a function declaration: a member of a class.
pub fn process_function(state: &mut ParserState, e: &Entity) -> (out: Result<(), FinchError>)
    ensures
        reached(final(state)@, out, after_function(old(state)@, *e)),
        distinct_names(old(state)@.classes) ==> distinct_names(final(state)@.classes),
{
    if !state.in_finch || !state.in_internal {
        return Ok(());
    }
    let package = match &state.namespace {
        Some(p) => p.clone(),
        None => {
            return Ok(());
        },
    };
    let name = match &e.name {
        Some(name) => name.as_str(),
        None => {
            return Err(FinchError::Unnamed);
        },
    };
    match decode(name, package.as_str()) {
        Decoded::Class { class_name, role } => {
            match find_class(&state.classes, class_name.as_str()) {
                None => Err(FinchError::ClassNotFound { class_name }),
                Some(i) => {
                    match role {
                        Role::Unknown { keyword } => {
                            state.warn(Warning::UnknownIdentifier { text: keyword });
                            Ok(())
                        },
                        Role::Incomplete => {
                            state.warn(Warning::UnknownIdentifier { text: String::from_str(name) });
                            Ok(())
                        },
                        role => {
                            let fn_name = qualify(package.as_str(), name);
                            let c_fn_name = String::from_str(name);
                            assert(state.classes@[i as int]@ == old(state)@.classes[i as int]);
                            let r = state.classes[i].attach(role, fn_name, c_fn_name, e);
                            assert(state@.classes =~= old(state)@.classes.update(
                                i as int,
                                state.classes@[i as int]@,
                            ));
                            assert(r is Err ==> state@.classes =~= old(state)@.classes);
                            r
                        },
                    }
                },
            }
        },
        d => {
            let w = warning_for(d, name, package.as_str());
            state.warn(w);
            Ok(())
        },
    }
}

/// Walks the declarations directly below `e`, in order, to the first failure.
pub fn process_children(state: &mut ParserState, e: &Entity) -> (out: Result<(), FinchError>)
    ensures
        reached(
            final(state)@,
            out,
            walk_children(old(state)@, e.children@, e.children@.len() as int),
        ),
        distinct_names(old(state)@.classes) ==> distinct_names(final(state)@.classes),
    decreases e, 0nat,
{
    let mut i: usize = 0;
    while i < e.children.len()
        invariant
            i <= e.children.len(),
            going(state@) == walk_children(old(state)@, e.children@, i as int),
            distinct_names(old(state)@.classes) ==> distinct_names(state@.classes),
        decreases e.children.len() - i,
    {
        let r = process_entity(state, &e.children[i]);
        if r.is_err() {
            assert(walk_children(old(state)@, e.children@, e.children@.len() as int)
                == walk_children(old(state)@, e.children@, i + 1)) by {
                failure_stays(old(state)@, e.children@, i + 1, e.children@.len() as int);
            }
            return r;
        }
        i += 1;
    }
    Ok(())
}

/// Walks one declaration with everything below it.
pub fn process_entity(state: &mut ParserState, e: &Entity) -> (out: Result<(), FinchError>)
    ensures
        reached(final(state)@, out, walk_entity(old(state)@, *e)),
        distinct_names(old(state)@.classes) ==> distinct_names(final(state)@.classes),
    decreases e, 1nat,
{
    match e.kind {
        EntityKind::TranslationUnit => process_children(state, e),
        EntityKind::Namespace => {
            let name = match &e.display_name {
                Some(name) => name.as_str(),
                None => {
                    return Err(FinchError::Unnamed);
                },
            };
            if !state.in_finch {
                if str_eq(name, "finch") {
                    state.in_finch = true;
                    process_children(state, e)
                } else {
                    Ok(())
                }
            } else if !state.in_internal {
                if str_eq(name, "bindgen") {
                    state.in_internal = true;
                    process_children(state, e)
                } else {
                    state.warn(Warning::UnknownNamespace { name: String::from_str(name) });
                    Ok(())
                }
            } else if state.namespace.is_none() {
                state.namespace = Some(String::from_str(name));
                process_children(state, e)
            } else {
                state.warn(Warning::UnknownNamespace { name: String::from_str(name) });
                Ok(())
            }
        },
        EntityKind::UnexposedDecl => {
            if state.in_finch && state.in_internal {
                process_children(state, e)
            } else {
                Ok(())
            }
        },
        EntityKind::TypeAliasDecl => process_alias(state, e),
        EntityKind::FunctionDecl => process_function(state, e),
        EntityKind::Other => Ok(()),
    }
}

/// What a run gives: the classes, each name once, and the warnings of the walk.
#[derive(Clone, Debug)]
pub struct FinchOutput {
    pub classes: Vec<FinchClass>,
    pub warnings: Vec<Warning>,
}

impl FinchOutput {
    /// The class of that name, if the run found one.
    pub fn get(&self, name: &str) -> (out: Option<&FinchClass>)
        ensures
            out is Some <==> known(classes_view(self.classes@), name@),
            out matches Some(class) ==> class@ == classes_view(self.classes@)[position(
                classes_view(self.classes@),
                name@,
            )],
    {
        match find_class(&self.classes, name) {
            Some(i) => Some(&self.classes[i]),
            None => None,
        }
    }
}

/// Walks a whole declaration tree from the initial state. The result holds
/// the classes and the warnings that the walk ends with; a failure of the
/// walk is the failure of the run, and nothing else is returned then.
pub fn generate(root: &Entity) -> (out: Result<FinchOutput, FinchError>)
    ensures
        match out {
            Ok(output) => {
                &&& walk_entity(initial_state(), *root) == going(
                    StateModel {
                        classes: classes_view(output.classes@),
                        warnings: output.warnings@.map_values(|w: Warning| w@),
                        ..walk_entity(initial_state(), *root).state
                    },
                )
                &&& distinct_names(classes_view(output.classes@))
            },
            Err(err) => walk_entity(initial_state(), *root).failure == Some(err@),
        },
{
    let mut state = ParserState::new();
    match process_entity(&mut state, root) {
        Ok(_) => Ok(FinchOutput { classes: state.classes, warnings: state.warnings }),
        Err(err) => Err(err),
    }
}

/// Once the walk over the first `count` children has failed, the children
/// behind them change nothing.
pub proof fn failure_stays(st: StateModel, children: Seq<Entity>, count: int, more: int)
    requires
        0 <= count <= more <= children.len(),
        walk_children(st, children, count).failure is Some,
    ensures
        walk_children(st, children, more) == walk_children(st, children, count),
    decreases more - count,
{
    if count < more {
        failure_stays(st, children, count, more - 1);
    }
}

} // verus!
