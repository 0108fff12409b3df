//! What holds of every walk: classes are made once, nothing that was found
//! is lost or reordered, and warnings are notes only.

use vstd::prelude::*;
use crate::class::{
    attached, attached_grows, distinct_names, is_first_named, known, position, table_grown,
    table_grown_twice, ClassModel,
};
use crate::decl::{Entity, EntityKind};
use crate::error::ErrorModel;
use crate::ident::{assembled_name_decodes, decoding, role_of, DecodedModel};
use crate::text::{free_of, joined};
use crate::walker::{
    after_alias, after_function, eligible, entered, failed, failure_stays, going, initial_state,
    qualified, walk_children, walk_entity, warned, StateModel, WarningModel,
};

verus! {

/// Walking the same type alias a second time changes no class: the class is
/// there after the first time, and is not made again.
pub proof fn alias_twice_changes_no_class(st: StateModel, e: Entity)
    ensures
        after_alias(after_alias(st, e).state, e).state.classes == after_alias(st, e).state.classes,
        eligible(st) && e.name is Some && decoding(e.name->0@, st.namespace->0) is Class
            ==> after_alias(after_alias(st, e).state, e) == after_alias(st, e),
{
    if eligible(st) && e.name is Some && e.display_name is Some {
        let package = st.namespace->0;
        match decoding(e.name->0@, package) {
            DecodedModel::Class { class_name, role } => {
                if !known(st.classes, class_name) {
                    let once = after_alias(st, e).state;
                    assert(once.classes[st.classes.len() as int].name == class_name);
                    assert(known(once.classes, class_name));
                }
            },
            _ => {},
        }
    }
}

/// A class that is in the table stays as it is when its type alias is walked
/// again: name, qualified name, documentation and members are those it had.
pub proof fn alias_keeps_known_class(st: StateModel, e: Entity, i: int)
    requires
        0 <= i < st.classes.len(),
    ensures
        i < after_alias(st, e).state.classes.len(),
        after_alias(st, e).state.classes[i] == st.classes[i],
{
}

/// A type alias removes and reorders nothing: the table behind it holds every
/// class that it held, unchanged, and no name twice if none was there twice.
pub proof fn alias_grows_table(st: StateModel, e: Entity)
    ensures
        table_grown(st.classes, after_alias(st, e).state.classes),
        distinct_names(st.classes) ==> distinct_names(after_alias(st, e).state.classes),
{
}

/// A function declaration removes and reorders nothing: the table behind it
/// holds every class that it held, with the members that it had in the order
/// that they had, and no name twice if none was there twice.
pub proof fn function_grows_table(st: StateModel, e: Entity)
    ensures
        table_grown(st.classes, after_function(st, e).state.classes),
        distinct_names(st.classes) ==> distinct_names(after_function(st, e).state.classes),
{
    if eligible(st) && e.name is Some {
        let package = st.namespace->0;
        match decoding(e.name->0@, package) {
            DecodedModel::Class { class_name, role } => {
                if known(st.classes, class_name) {
                    let i = position(st.classes, class_name);
                    let w = choose|w: int|
                        0 <= w < st.classes.len() && (#[trigger] st.classes[w]).name == class_name;
                    first_named_exists(st.classes, class_name, w);
                    let r = attached(st.classes[i], role, qualified(package, e.name->0@), e.name->0@, e);
                    if r is Ok {
                        attached_grows(
                            st.classes[i],
                            role,
                            qualified(package, e.name->0@),
                            e.name->0@,
                            e,
                        );
                    }
                }
            },
            _ => {},
        }
    }
}

/// Where a class of some name stands at position `at`, one stands first.
pub proof fn first_named_exists(classes: Seq<ClassModel>, name: Seq<char>, at: int)
    requires
        0 <= at < classes.len(),
        classes[at].name == name,
    ensures
        is_first_named(classes, name, position(classes, name)),
    decreases at,
{
    if exists|j: int| 0 <= j < at && (#[trigger] classes[j]).name == name {
        let j = choose|j: int| 0 <= j < at && (#[trigger] classes[j]).name == name;
        first_named_exists(classes, name, j);
    } else {
        assert(is_first_named(classes, name, at));
    }
}

/// The walk over a declaration removes and reorders nothing: the table that
/// it ends with holds every class that it began with, at its place and under
/// its name, and each member list begins with the members that it had, in
/// their order. Where no name was in the table twice, none is afterwards.
pub proof fn walk_grows_table(st: StateModel, e: Entity)
    ensures
        table_grown(st.classes, walk_entity(st, e).state.classes),
        distinct_names(st.classes) ==> distinct_names(walk_entity(st, e).state.classes),
    decreases e, 0nat,
{
    match e.kind {
        EntityKind::TranslationUnit => {
            children_grow_table(st, e.children@, e.children@.len() as int);
        },
        EntityKind::Namespace => if e.display_name is Some {
            match entered(st, e.display_name->0@) {
                Some(inner) => {
                    children_grow_table(inner, e.children@, e.children@.len() as int);
                },
                None => {},
            }
        },
        EntityKind::UnexposedDecl => {
            if st.in_finch && st.in_internal {
                children_grow_table(st, e.children@, e.children@.len() as int);
            }
        },
        EntityKind::TypeAliasDecl => {
            alias_grows_table(st, e);
        },
        EntityKind::FunctionDecl => {
            function_grows_table(st, e);
        },
        EntityKind::Other => {},
    }
}

/// The walk over the first `count` children removes and reorders nothing.
pub proof fn children_grow_table(st: StateModel, children: Seq<Entity>, count: int)
    ensures
        table_grown(st.classes, walk_children(st, children, count).state.classes),
        distinct_names(st.classes) ==> distinct_names(
            walk_children(st, children, count).state.classes,
        ),
    decreases children, count,
{
    if 0 < count <= children.len() {
        children_grow_table(st, children, count - 1);
        let before = walk_children(st, children, count - 1);
        if before.failure is None {
            walk_grows_table(before.state, children[count - 1]);
            table_grown_twice(
                st.classes,
                before.state.classes,
                walk_entity(before.state, children[count - 1]).state.classes,
            );
        }
    }
}

/// A function declaration of a class that the table lacks ends the walk, and
/// the state is as it was.
pub proof fn member_before_class_fails(st: StateModel, e: Entity)
    requires
        eligible(st),
        e.name is Some,
        decoding(e.name->0@, st.namespace->0) is Class,
        !known(st.classes, decoding(e.name->0@, st.namespace->0)->class_name),
    ensures
        after_function(st, e) == failed(
            st,
            ErrorModel::ClassNotFound {
                class_name: decoding(e.name->0@, st.namespace->0)->class_name,
            },
        ),
{
}

/// The state in which the walk enters the declarations below `e`, where it
/// enters them: below the translation unit, below a namespace that is
/// entered, and below a wrapper inside both outer namespaces.
pub open spec fn inner_state(st: StateModel, e: Entity) -> Option<StateModel> {
    match e.kind {
        EntityKind::TranslationUnit => Some(st),
        EntityKind::Namespace => if e.display_name is None {
            None
        } else {
            entered(st, e.display_name->0@)
        },
        EntityKind::UnexposedDecl => if st.in_finch && st.in_internal {
            Some(st)
        } else {
            None
        },
        _ => None,
    }
}

/// The walk of `e` from `st` comes to the declaration `d` in the state `at`,
/// with no failure before it: `d` is `e` itself, or the walk enters the
/// declarations below `e`, walks some of them without a failure, and comes
/// to `d` in the next one.
pub open spec fn reaches(st: StateModel, e: Entity, at: StateModel, d: Entity) -> bool
    decreases e,
{
    ||| (st == at && e == d)
    ||| (inner_state(st, e) is Some && exists|k: int|
        0 <= k < e.children@.len() && (#[trigger] walk_children(
            inner_state(st, e)->0,
            e.children@,
            k,
        )).failure is None && reaches(
            walk_children(inner_state(st, e)->0, e.children@, k).state,
            e.children@[k],
            at,
            d,
        ))
}

/// The walk comes to each declaration below one that it enters, as long as
/// nothing before it has failed.
pub proof fn child_is_reached(st: StateModel, e: Entity, k: int)
    requires
        inner_state(st, e) is Some,
        0 <= k < e.children@.len(),
        walk_children(inner_state(st, e)->0, e.children@, k).failure is None,
    ensures
        reaches(
            st,
            e,
            walk_children(inner_state(st, e)->0, e.children@, k).state,
            e.children@[k],
        ),
{
    let at = walk_children(inner_state(st, e)->0, e.children@, k).state;
    assert(reaches(at, e.children@[k], at, e.children@[k]));
}

/// The first failure among the declarations below one declaration decides
/// the walk over them: nothing behind it is walked.
pub proof fn first_failure_decides(st: StateModel, children: Seq<Entity>, k: int, count: int)
    requires
        0 <= k < count <= children.len(),
        walk_children(st, children, k).failure is None,
        walk_entity(walk_children(st, children, k).state, children[k]).failure is Some,
    ensures
        walk_children(st, children, count) == walk_entity(
            walk_children(st, children, k).state,
            children[k],
        ),
{
    assert(walk_children(st, children, k + 1) == walk_entity(
        walk_children(st, children, k).state,
        children[k],
    ));
    failure_stays(st, children, k + 1, count);
}

/// A failure at a declaration that the walk comes to is the failure of the
/// whole walk, wherever in the tree the declaration stands: the walk ends
/// there, in the state in which it came to the declaration.
pub proof fn failure_where_reached_ends_walk(
    st: StateModel,
    e: Entity,
    at: StateModel,
    d: Entity,
)
    requires
        reaches(st, e, at, d),
        walk_entity(at, d).failure is Some,
    ensures
        walk_entity(st, e) == walk_entity(at, d),
    decreases e,
{
    if !(st == at && e == d) {
        let inner = inner_state(st, e)->0;
        let k = choose|k: int|
            0 <= k < e.children@.len() && (#[trigger] walk_children(
                inner,
                e.children@,
                k,
            )).failure is None && reaches(
                walk_children(inner, e.children@, k).state,
                e.children@[k],
                at,
                d,
            );
        failure_where_reached_ends_walk(
            walk_children(inner, e.children@, k).state,
            e.children@[k],
            at,
            d,
        );
        first_failure_decides(inner, e.children@, k, e.children@.len() as int);
    }
}

/// A member before its class ends the run, whatever the tree: where the walk
/// from the initial state comes to a function declaration inside the package
/// namespace whose linkage name names a class that the table lacks at that
/// moment, the walk of the whole tree fails with that class not found.
pub proof fn member_before_class_ends_run(root: Entity, at: StateModel, d: Entity)
    requires
        reaches(initial_state(), root, at, d),
        d.kind == EntityKind::FunctionDecl,
        eligible(at),
        d.name is Some,
        decoding(d.name->0@, at.namespace->0) is Class,
        !known(at.classes, decoding(d.name->0@, at.namespace->0)->class_name),
    ensures
        walk_entity(initial_state(), root) == failed(
            at,
            ErrorModel::ClassNotFound {
                class_name: decoding(d.name->0@, at.namespace->0)->class_name,
            },
        ),
{
    member_before_class_fails(at, d);
    failure_where_reached_ends_walk(initial_state(), root, at, d);
}

/// The declaration `d` stands where the walk of `e` from `st` comes to it in
/// the state `at`, unless the walk fails before: `d` is `e` itself, or the
/// walk enters the declarations below `e`, and either fails among some first
/// of them or is headed for `d` in the next one.
pub open spec fn heads_for(st: StateModel, e: Entity, at: StateModel, d: Entity) -> bool
    decreases e,
{
    ||| (st == at && e == d)
    ||| (inner_state(st, e) is Some && exists|k: int|
        0 <= k < e.children@.len() && ((#[trigger] walk_children(
            inner_state(st, e)->0,
            e.children@,
            k,
        )).failure is Some || heads_for(
            walk_children(inner_state(st, e)->0, e.children@, k).state,
            e.children@[k],
            at,
            d,
        )))
}

/// Where the walk is headed for a declaration that fails in the state in
/// which the walk would come to it, the walk fails: at that declaration, or
/// before it.
pub proof fn failure_ahead_fails_walk(st: StateModel, e: Entity, at: StateModel, d: Entity)
    requires
        heads_for(st, e, at, d),
        walk_entity(at, d).failure is Some,
    ensures
        walk_entity(st, e).failure is Some,
    decreases e,
{
    if !(st == at && e == d) {
        let inner = inner_state(st, e)->0;
        let cs = e.children@;
        let k = choose|k: int|
            0 <= k < cs.len() && ((#[trigger] walk_children(inner, cs, k)).failure is Some
                || heads_for(walk_children(inner, cs, k).state, cs[k], at, d));
        if walk_children(inner, cs, k).failure is Some {
            failure_stays(inner, cs, k, cs.len() as int);
        } else {
            failure_ahead_fails_walk(walk_children(inner, cs, k).state, cs[k], at, d);
            first_failure_decides(inner, cs, k, cs.len() as int);
        }
    }
}

/// A member before its class gives no output, whatever the tree and whatever
/// comes before it: where the walk from the initial state is headed for a
/// function declaration that it would come to inside the package namespace,
/// with a table that lacks the declaration's class, the walk of the whole
/// tree fails, at that declaration or before it.
pub proof fn member_before_class_gives_no_output(root: Entity, at: StateModel, d: Entity)
    requires
        heads_for(initial_state(), root, at, d),
        d.kind == EntityKind::FunctionDecl,
        eligible(at),
        d.name is Some,
        decoding(d.name->0@, at.namespace->0) is Class,
        !known(at.classes, decoding(d.name->0@, at.namespace->0)->class_name),
    ensures
        walk_entity(initial_state(), root).failure is Some,
{
    member_before_class_fails(at, d);
    failure_ahead_fails_walk(initial_state(), root, at, d);
}

/// A function declaration whose linkage name is put together by the grammar,
/// for the package walked and for a class that the table has, gives that
/// class the member that the name's fields name and changes nothing else:
/// where the member can be built, the walk goes on with the class at its
/// place replaced by the class with the member attached.
pub proof fn named_member_is_attached(st: StateModel, e: Entity, fields: Seq<Seq<char>>)
    requires
        eligible(st),
        e.name is Some,
        e.name->0@ == joined(fields, "___"@),
        fields.len() >= 6,
        fields[0].len() == 0,
        fields[1] == "finch_bindgen"@,
        fields[2] == st.namespace->0,
        fields[3] == "class"@,
        forall|i: int| 0 <= i < fields.len() ==> free_of(#[trigger] fields[i], "___"@),
        known(st.classes, fields[4]),
        !(role_of(fields) is Unknown),
        !(role_of(fields) is Incomplete),
    ensures
        ({
            let i = position(st.classes, fields[4]);
            let name = joined(fields, "___"@);
            let built = attached(
                st.classes[i],
                role_of(fields),
                qualified(st.namespace->0, name),
                name,
                e,
            );
            &&& 0 <= i < st.classes.len()
            &&& st.classes[i].name == fields[4]
            &&& built is Ok ==> after_function(st, e) == going(
                StateModel { classes: st.classes.update(i, built->Ok_0), ..st },
            )
            &&& built is Err ==> after_function(st, e) == failed(st, built->Err_0)
        }),
{
    assembled_name_decodes(fields, st.namespace->0);
    let w = choose|w: int|
        0 <= w < st.classes.len() && (#[trigger] st.classes[w]).name == fields[4];
    first_named_exists(st.classes, fields[4], w);
}

/// A declaration whose linkage name belongs to another package changes no
/// class and ends nothing: it adds one warning, which names both packages.
pub proof fn other_package_is_passed_over(st: StateModel, e: Entity)
    requires
        eligible(st),
        e.name is Some,
        decoding(e.name->0@, st.namespace->0) is PackageMismatch,
    ensures
        after_function(st, e) == after_alias(st, e),
        after_alias(st, e).failure is None,
        after_alias(st, e).state == warned(
            st,
            WarningModel::PackageMismatch {
                expected: st.namespace->0,
                found: decoding(e.name->0@, st.namespace->0)->found,
            },
        ),
        after_alias(st, e).state.classes == st.classes,
{
}

/// Warnings are notes only: the walk of a declaration from a state with
/// other warnings ends with the same classes, in the same namespaces, and
/// with the same failure.
pub proof fn warnings_change_nothing(st: StateModel, other: Seq<WarningModel>, e: Entity)
    ensures
        ({
            let a = walk_entity(st, e);
            let b = walk_entity(StateModel { warnings: other, ..st }, e);
            &&& b.failure == a.failure
            &&& b.state.classes == a.state.classes
            &&& b.state.in_finch == a.state.in_finch
            &&& b.state.in_internal == a.state.in_internal
            &&& b.state.namespace == a.state.namespace
        }),
    decreases e, 0nat,
{
    let st2 = StateModel { warnings: other, ..st };
    match e.kind {
        EntityKind::TranslationUnit => {
            warnings_change_nothing_below(st, other, e.children@, e.children@.len() as int);
        },
        EntityKind::Namespace => if e.display_name is Some {
            match entered(st, e.display_name->0@) {
                Some(inner) => {
                    assert(entered(st2, e.display_name->0@) == Some(
                        StateModel { warnings: other, ..inner },
                    ));
                    warnings_change_nothing_below(
                        inner,
                        other,
                        e.children@,
                        e.children@.len() as int,
                    );
                },
                None => {},
            }
        },
        EntityKind::UnexposedDecl => {
            if st.in_finch && st.in_internal {
                warnings_change_nothing_below(st, other, e.children@, e.children@.len() as int);
            }
        },
        _ => {},
    }
}

/// Warnings are notes only, for the walk over the first `count` children.
pub proof fn warnings_change_nothing_below(
    st: StateModel,
    other: Seq<WarningModel>,
    children: Seq<Entity>,
    count: int,
)
    ensures
        ({
            let a = walk_children(st, children, count);
            let b = walk_children(StateModel { warnings: other, ..st }, children, count);
            &&& b.failure == a.failure
            &&& b.state.classes == a.state.classes
            &&& b.state.in_finch == a.state.in_finch
            &&& b.state.in_internal == a.state.in_internal
            &&& b.state.namespace == a.state.namespace
        }),
    decreases children, count,
{
    if 0 < count <= children.len() {
        warnings_change_nothing_below(st, other, children, count - 1);
        let a = walk_children(st, children, count - 1);
        let b = walk_children(StateModel { warnings: other, ..st }, children, count - 1);
        if a.failure is None {
            assert(b.state == StateModel { warnings: b.state.warnings, ..a.state });
            warnings_change_nothing(a.state, b.state.warnings, children[count - 1]);
        }
    }
}

} // verus!
