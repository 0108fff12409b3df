use finch_gen::walker::{process_entity, process_function};
use finch_gen::{
    generate, Argument, Entity, EntityKind, FinchError, FinchType, ParserState, TypeHandle,
    TypeKind, Warning,
};

fn int_type() -> TypeHandle {
    TypeHandle {
        display_name: "int".to_string(),
        kind: TypeKind::Int,
        pointee: None,
        canonical: None,
        size: Some(4),
    }
}

fn void_type() -> TypeHandle {
    TypeHandle {
        display_name: "void".to_string(),
        kind: TypeKind::Void,
        pointee: None,
        canonical: None,
        size: None,
    }
}

fn widget_pointer() -> TypeHandle {
    TypeHandle {
        display_name: "Widget *".to_string(),
        kind: TypeKind::Pointer,
        pointee: Some(Box::new(TypeHandle {
            display_name: "Widget".to_string(),
            kind: TypeKind::Typedef,
            pointee: None,
            canonical: Some(Box::new(TypeHandle {
                display_name: "finch::bindgen::pkg::Widget".to_string(),
                kind: TypeKind::Record,
                pointee: None,
                canonical: None,
                size: None,
            })),
            size: None,
        })),
        canonical: None,
        size: Some(8),
    }
}

fn arg(name: &str, ty: TypeHandle) -> Argument {
    Argument { display_name: Some(name.to_string()), type_handle: Some(ty) }
}

fn node(kind: EntityKind, name: &str, children: Vec<Entity>) -> Entity {
    Entity {
        kind,
        name: Some(name.to_string()),
        display_name: Some(name.to_string()),
        comment: None,
        arguments: Vec::new(),
        result_type: None,
        children,
    }
}

fn namespace(name: &str, children: Vec<Entity>) -> Entity {
    node(EntityKind::Namespace, name, children)
}

fn alias(name: &str) -> Entity {
    node(EntityKind::TypeAliasDecl, name, Vec::new())
}

fn function(name: &str, arguments: Vec<Argument>, result: TypeHandle) -> Entity {
    Entity {
        kind: EntityKind::FunctionDecl,
        name: Some(name.to_string()),
        display_name: Some(format!("{}()", name)),
        comment: Some("/// documented".to_string()),
        arguments,
        result_type: Some(result),
        children: Vec::new(),
    }
}

fn header(declarations: Vec<Entity>) -> Entity {
    node(
        EntityKind::TranslationUnit,
        "header.h",
        vec![namespace("finch", vec![namespace("bindgen", vec![namespace("pkg", declarations)])])],
    )
}

fn in_package() -> ParserState {
    let mut state = ParserState::new();
    state.in_finch = true;
    state.in_internal = true;
    state.namespace = Some("pkg".to_string());
    state
}

fn warning_texts(warnings: &[Warning]) -> Vec<String> {
    warnings.iter().map(|w| w.message()).collect()
}

#[test]
fn class_with_constructor_only() {
    let root = header(vec![
        alias("___finch_bindgen___pkg___class___Widget"),
        function("___finch_bindgen___pkg___class___Widget___static___new", vec![], widget_pointer()),
    ]);
    let out = generate(&root).unwrap();
    assert_eq!(out.classes.len(), 1);
    let class = out.get("Widget").unwrap();
    assert_eq!(class.name, "Widget");
    assert_eq!(class.c_name, "finch::bindgen::pkg::___finch_bindgen___pkg___class___Widget");
    let new = class.new.as_ref().unwrap();
    assert_eq!(new.class_name, "Widget");
    assert_eq!(new.c_fn_name, "___finch_bindgen___pkg___class___Widget___static___new");
    assert_eq!(
        new.fn_name,
        "finch::bindgen::pkg::___finch_bindgen___pkg___class___Widget___static___new"
    );
    assert!(new.arg_names.is_empty());
    assert!(new.arg_types.is_empty());
    assert_eq!(new.comments.as_deref(), Some("/// documented"));
    assert!(class.drop.is_none());
    assert!(class.statics.is_empty());
    assert!(class.methods.is_empty());
    assert!(class.getters.is_empty());
    assert!(class.setters.is_empty());
    assert!(out.warnings.is_empty());
    assert!(out.get("Gadget").is_none());
}

#[test]
fn alias_without_package_field_is_passed_over() {
    let root = header(vec![alias("___finch_bindgen___class___Widget")]);
    let out = generate(&root).unwrap();
    assert!(out.classes.is_empty());
    assert_eq!(
        warning_texts(&out.warnings),
        vec!["namespace mismatch, expected 'pkg', got 'class'".to_string()]
    );
}

#[test]
fn member_before_class_is_fatal() {
    let root = header(vec![
        function(
            "___finch_bindgen___pkg___class___Gadget___method___spin",
            vec![arg("self", widget_pointer())],
            void_type(),
        ),
        alias("___finch_bindgen___pkg___class___Gadget"),
    ]);
    let err = generate(&root).unwrap_err();
    assert!(matches!(&err, FinchError::ClassNotFound { class_name } if class_name == "Gadget"));
    assert_eq!(err.message(), "failed to find class 'Gadget'");
}

#[test]
fn class_lookup_comes_before_the_member_keyword() {
    let mut state = in_package();
    let e = function("___finch_bindgen___pkg___class___Gadget___frobnicate___x", vec![], void_type());
    let err = process_function(&mut state, &e).unwrap_err();
    assert!(matches!(err, FinchError::ClassNotFound { .. }));
    assert!(state.warnings.is_empty());
}

#[test]
fn package_mismatch_warns_and_skips() {
    let mut state = in_package();
    process_entity(&mut state, &alias("___finch_bindgen___pkg___class___Widget")).unwrap();
    let e = function(
        "___finch_bindgen___other_pkg___class___Widget___static___new",
        vec![],
        widget_pointer(),
    );
    process_entity(&mut state, &e).unwrap();
    assert_eq!(state.classes.len(), 1);
    assert!(state.classes[0].new.is_none());
    assert_eq!(
        warning_texts(&state.warnings),
        vec!["namespace mismatch, expected 'pkg', got 'other_pkg'".to_string()]
    );
    let a = alias("___finch_bindgen___other_pkg___class___Gadget");
    process_entity(&mut state, &a).unwrap();
    assert_eq!(state.classes.len(), 1);
    assert_eq!(state.warnings.len(), 2);
}

#[test]
fn setter_takes_the_type_of_the_second_argument() {
    let root = header(vec![
        alias("___finch_bindgen___pkg___class___Widget"),
        function(
            "___finch_bindgen___pkg___class___Widget___setter___count",
            vec![arg("self", widget_pointer()), arg("value", int_type())],
            void_type(),
        ),
    ]);
    let out = generate(&root).unwrap();
    let class = out.get("Widget").unwrap();
    assert_eq!(class.setters.len(), 1);
    let setter = &class.setters[0];
    assert_eq!(setter.field_name, "count");
    assert_eq!(setter.class_name, "Widget");
    assert_eq!(setter.type_.display_name, "int");
    assert_eq!(setter.type_.kind, TypeKind::Int);
    assert_eq!(setter.type_.sizeof, Some(4));
    assert!(setter.type_.pointee_type.is_none());
}

#[test]
fn getter_takes_the_result_type() {
    let root = header(vec![
        alias("___finch_bindgen___pkg___class___Widget"),
        function(
            "___finch_bindgen___pkg___class___Widget___getter___count",
            vec![arg("self", widget_pointer())],
            int_type(),
        ),
    ]);
    let out = generate(&root).unwrap();
    let getter = &out.get("Widget").unwrap().getters[0];
    assert_eq!(getter.field_name, "count");
    assert_eq!(getter.type_.display_name, "int");
    assert_eq!(getter.comments.as_deref(), Some("/// documented"));
}

#[test]
fn alias_twice_keeps_the_first_class() {
    let mut state = in_package();
    let mut first = alias("___finch_bindgen___pkg___class___Widget");
    first.display_name = Some("Widget_t".to_string());
    first.comment = Some("first".to_string());
    let mut second = alias("___finch_bindgen___pkg___class___Widget");
    second.display_name = Some("Other_t".to_string());
    second.comment = Some("second".to_string());
    process_entity(&mut state, &first).unwrap();
    process_entity(&mut state, &first).unwrap();
    process_entity(&mut state, &second).unwrap();
    assert_eq!(state.classes.len(), 1);
    assert_eq!(state.classes[0].name, "Widget");
    assert_eq!(state.classes[0].c_name, "finch::bindgen::pkg::Widget_t");
    assert_eq!(state.classes[0].comments.as_deref(), Some("first"));
    assert!(state.warnings.is_empty());
}

#[test]
fn members_keep_declaration_order_and_last_slot_wins() {
    let recv = || arg("self", widget_pointer());
    let root = header(vec![
        alias("___finch_bindgen___pkg___class___Widget"),
        alias("___finch_bindgen___pkg___class___Gadget"),
        function("___finch_bindgen___pkg___class___Widget___method___b", vec![recv()], void_type()),
        function("___finch_bindgen___pkg___class___Gadget___static___make", vec![], int_type()),
        function(
            "___finch_bindgen___pkg___class___Widget___method_consume___a",
            vec![recv()],
            void_type(),
        ),
        function("___finch_bindgen___pkg___class___Widget___static___z", vec![], int_type()),
        function("___finch_bindgen___pkg___class___Widget___static___y", vec![], int_type()),
        function("___finch_bindgen___pkg___class___Widget___drop", vec![recv()], void_type()),
        function("___finch_bindgen___pkg___class___Widget___drop___again", vec![recv()], void_type()),
        function(
            "___finch_bindgen___pkg___class___Widget___static___new",
            vec![arg("a", int_type())],
            widget_pointer(),
        ),
        function(
            "___finch_bindgen___pkg___class___Widget___static___new",
            vec![arg("b", int_type()), arg("c", int_type())],
            widget_pointer(),
        ),
    ]);
    let out = generate(&root).unwrap();
    assert_eq!(out.classes.len(), 2);
    let widget = out.get("Widget").unwrap();
    let methods: Vec<(&str, bool)> =
        widget.methods.iter().map(|m| (m.method_name.as_str(), m.consume)).collect();
    assert_eq!(methods, vec![("b", false), ("a", true)]);
    let statics: Vec<&str> = widget.statics.iter().map(|m| m.method_name.as_str()).collect();
    assert_eq!(statics, vec!["z", "y"]);
    assert_eq!(
        widget.drop.as_ref().unwrap().c_fn_name,
        "___finch_bindgen___pkg___class___Widget___drop___again"
    );
    assert_eq!(widget.new.as_ref().unwrap().arg_names, vec!["b".to_string(), "c".to_string()]);
    let gadget = out.get("Gadget").unwrap();
    assert_eq!(gadget.statics.len(), 1);
    assert_eq!(gadget.statics[0].method_name, "make");
    assert_eq!(gadget.statics[0].ret_type.display_name, "int");
    assert!(gadget.methods.is_empty());
}

#[test]
fn method_leaves_the_receiver_out() {
    let mut state = in_package();
    process_entity(&mut state, &alias("___finch_bindgen___pkg___class___Widget")).unwrap();
    let e = function(
        "___finch_bindgen___pkg___class___Widget___method___resize",
        vec![arg("self", widget_pointer()), arg("w", int_type()), arg("h", int_type())],
        void_type(),
    );
    process_entity(&mut state, &e).unwrap();
    let m = &state.classes[0].methods[0];
    assert_eq!(m.method_name, "resize");
    assert_eq!(m.arg_names, vec!["w".to_string(), "h".to_string()]);
    assert_eq!(m.arg_types.len(), 2);
    assert_eq!(m.arg_types[0].display_name, "int");
    assert_eq!(m.arg_types[1].display_name, "int");
    assert_eq!(m.ret_type.display_name, "void");
    assert_eq!(m.ret_type.sizeof, None);
    assert!(!m.consume);
}

#[test]
fn method_without_receiver_is_fatal() {
    let mut state = in_package();
    process_entity(&mut state, &alias("___finch_bindgen___pkg___class___Widget")).unwrap();
    let e = function("___finch_bindgen___pkg___class___Widget___method___m", vec![], void_type());
    let err = process_entity(&mut state, &e).unwrap_err();
    assert!(matches!(&err, FinchError::MissingReceiver { function }
        if function == "___finch_bindgen___pkg___class___Widget___method___m"));
    assert!(state.classes[0].methods.is_empty());
    assert_eq!(
        err.message(),
        "method without a receiver argument '___finch_bindgen___pkg___class___Widget___method___m'"
    );
}

#[test]
fn setter_without_value_is_fatal() {
    let mut state = in_package();
    process_entity(&mut state, &alias("___finch_bindgen___pkg___class___Widget")).unwrap();
    let e = function(
        "___finch_bindgen___pkg___class___Widget___setter___count",
        vec![arg("self", widget_pointer())],
        void_type(),
    );
    let err = process_entity(&mut state, &e).unwrap_err();
    assert!(matches!(err, FinchError::MissingValue { .. }));
}

#[test]
fn unresolved_type_is_fatal() {
    let mut state = in_package();
    process_entity(&mut state, &alias("___finch_bindgen___pkg___class___Widget")).unwrap();
    let mut e =
        function("___finch_bindgen___pkg___class___Widget___static___make", vec![], int_type());
    e.result_type = None;
    let err = process_entity(&mut state, &e).unwrap_err();
    assert!(matches!(err, FinchError::Unresolved { .. }));
    let e = function(
        "___finch_bindgen___pkg___class___Widget___static___make",
        vec![Argument { display_name: Some("x".to_string()), type_handle: None }],
        int_type(),
    );
    let err = process_entity(&mut state, &e).unwrap_err();
    assert!(matches!(err, FinchError::Unresolved { .. }));
    let e = function(
        "___finch_bindgen___pkg___class___Widget___method___m",
        vec![
            Argument { display_name: None, type_handle: None },
            Argument { display_name: None, type_handle: Some(int_type()) },
        ],
        int_type(),
    );
    let err = process_entity(&mut state, &e).unwrap_err();
    assert_eq!(
        err.message(),
        "unresolved name or type in '___finch_bindgen___pkg___class___Widget___method___m'"
    );
    let e = function(
        "___finch_bindgen___pkg___class___Widget___method___m",
        vec![Argument { display_name: None, type_handle: None }, arg("x", int_type())],
        int_type(),
    );
    process_entity(&mut state, &e).unwrap();
    assert_eq!(state.classes[0].methods[0].arg_names, vec!["x".to_string()]);
    assert!(state.classes[0].statics.is_empty());
}

#[test]
fn unknown_member_keyword_warns() {
    let mut state = in_package();
    process_entity(&mut state, &alias("___finch_bindgen___pkg___class___Widget")).unwrap();
    let e = function("___finch_bindgen___pkg___class___Widget___frobnicate___x", vec![], int_type());
    process_entity(&mut state, &e).unwrap();
    let e = function("___finch_bindgen___pkg___class___Widget", vec![], int_type());
    process_entity(&mut state, &e).unwrap();
    let e = function("___finch_bindgen___pkg___enum___Colour", vec![], int_type());
    process_entity(&mut state, &e).unwrap();
    let e = function("plain_function", vec![], int_type());
    process_entity(&mut state, &e).unwrap();
    assert_eq!(
        warning_texts(&state.warnings),
        vec![
            "unknown identifier found 'frobnicate'".to_string(),
            "unknown identifier found '___finch_bindgen___pkg___class___Widget'".to_string(),
            "unknown identifier found 'enum'".to_string(),
            "unknown identifier found 'plain_function'".to_string(),
        ]
    );
    assert_eq!(state.classes.len(), 1);
}

#[test]
fn namespaces_open_in_order() {
    let root = node(
        EntityKind::TranslationUnit,
        "header.h",
        vec![
            namespace("std", vec![alias("___finch_bindgen___pkg___class___Hidden")]),
            namespace("bindgen", vec![alias("___finch_bindgen___pkg___class___Early")]),
            alias("___finch_bindgen___pkg___class___Outside"),
            namespace(
                "finch",
                vec![
                    namespace("detail", vec![alias("___finch_bindgen___pkg___class___Skipped")]),
                    namespace(
                        "bindgen",
                        vec![
                            alias("___finch_bindgen___pkg___class___TooEarly"),
                            namespace(
                                "pkg",
                                vec![
                                    alias("___finch_bindgen___pkg___class___Widget"),
                                    node(
                                        EntityKind::UnexposedDecl,
                                        "",
                                        vec![alias("___finch_bindgen___pkg___class___Wrapped")],
                                    ),
                                    node(
                                        EntityKind::Other,
                                        "",
                                        vec![alias("___finch_bindgen___pkg___class___Unseen")],
                                    ),
                                    namespace(
                                        "extra",
                                        vec![alias("___finch_bindgen___pkg___class___Nested")],
                                    ),
                                ],
                            ),
                        ],
                    ),
                ],
            ),
        ],
    );
    let out = generate(&root).unwrap();
    let names: Vec<&str> = out.classes.iter().map(|c| c.name.as_str()).collect();
    assert_eq!(names, vec!["Widget", "Wrapped"]);
    assert_eq!(
        warning_texts(&out.warnings),
        vec![
            "unknown namespace found 'detail'".to_string(),
            "unknown namespace found 'extra'".to_string(),
        ]
    );
}

#[test]
fn walk_records_the_package() {
    let mut state = ParserState::new();
    let root = header(vec![]);
    process_entity(&mut state, &root).unwrap();
    assert!(state.in_finch);
    assert!(state.in_internal);
    assert_eq!(state.namespace.as_deref(), Some("pkg"));
}

#[test]
fn type_description_follows_pointee_and_canonical_form() {
    let t = FinchType::from(&widget_pointer());
    assert_eq!(t.display_name, "Widget *");
    assert_eq!(t.kind, TypeKind::Pointer);
    assert_eq!(t.sizeof, Some(8));
    assert!(t.canonical_type.is_none());
    let pointee = t.pointee_type.as_ref().unwrap();
    assert_eq!(pointee.display_name, "Widget");
    assert_eq!(pointee.kind, TypeKind::Typedef);
    assert_eq!(pointee.sizeof, None);
    let canonical = pointee.canonical_type.as_ref().unwrap();
    assert_eq!(canonical.display_name, "finch::bindgen::pkg::Widget");
    assert_eq!(canonical.kind, TypeKind::Record);
    assert!(canonical.canonical_type.is_none());
    let copy = t.clone();
    assert_eq!(copy.pointee_type.unwrap().canonical_type.unwrap().display_name, canonical.display_name);
}

#[test]
fn declaration_without_a_name_is_fatal_where_it_is_read() {
    let mut anonymous = namespace("", vec![]);
    anonymous.display_name = None;
    let mut state = ParserState::new();
    let err = process_entity(&mut state, &anonymous).unwrap_err();
    assert!(matches!(err, FinchError::Unnamed));
    assert_eq!(err.message(), "declaration without a name");

    let unread = node(EntityKind::TranslationUnit, "h", vec![namespace("std", vec![anonymous])]);
    let out = generate(&unread).unwrap();
    assert!(out.classes.is_empty());
    assert!(out.warnings.is_empty());

    let mut nameless = alias("x");
    nameless.name = None;
    let mut state = ParserState::new();
    process_entity(&mut state, &nameless).unwrap();
    let mut state = in_package();
    assert!(matches!(process_entity(&mut state, &nameless), Err(FinchError::Unnamed)));

    let mut undisplayed = alias("___finch_bindgen___pkg___class___Widget");
    undisplayed.display_name = None;
    assert!(matches!(process_entity(&mut state, &undisplayed), Err(FinchError::Unnamed)));
    assert!(state.classes.is_empty());

    let mut f = function("x", vec![], int_type());
    f.name = None;
    assert!(matches!(process_entity(&mut state, &f), Err(FinchError::Unnamed)));
    let mut state = ParserState::new();
    process_entity(&mut state, &f).unwrap();
}

#[test]
fn member_before_class_deep_in_the_tree_ends_the_run() {
    let root = header(vec![
        alias("___finch_bindgen___pkg___class___Widget"),
        node(
            EntityKind::UnexposedDecl,
            "",
            vec![
                function("___finch_bindgen___pkg___class___Widget___static___make", vec![], int_type()),
                function("___finch_bindgen___pkg___class___Gadget___drop", vec![], void_type()),
            ],
        ),
        alias("___finch_bindgen___pkg___class___Gadget"),
    ]);
    let err = generate(&root).unwrap_err();
    assert_eq!(err.message(), "failed to find class 'Gadget'");
}
