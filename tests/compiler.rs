use gobject_gen::ast::{
    Class, Field, FnArg, Impl, ImplItem, ImplItemKind, ImplItemMethod, ImplProp, ImplPropBlock,
    Interface, Item, Pat, Path, PathSegment, Program, ReturnType, TypeExpr,
};
use gobject_gen::checking::check_program;
use gobject_gen::errors::{ContextProblem, Error};
use gobject_gen::gen::class::ClassContext;
use gobject_gen::gen::codegen;
use gobject_gen::hir;
use gobject_gen::hir::{IntTy, Slot, Ty};

fn path(s: &str) -> Path {
    Path {
        leading_colon: false,
        segments: s
            .split("::")
            .map(|p| PathSegment { ident: p.to_string(), has_arguments: false })
            .collect(),
    }
}

fn ty(s: &str) -> TypeExpr {
    TypeExpr::Path { qualified_self: false, path: path(s) }
}

fn class(name: &str, parent: Option<&str>) -> Item {
    Item::Class(Class { name: name.to_string(), extends: parent.map(path), fields: Vec::new() })
}

fn self_ref() -> FnArg {
    FnArg::SelfRef { has_lifetime: false, mutable: false }
}

fn arg(name: &str, t: TypeExpr) -> FnArg {
    FnArg::Captured {
        pat: Pat::Ident { by_ref: false, mutable: false, name: name.to_string(), has_subpattern: false },
        ty: t,
    }
}

struct M {
    public: bool,
    virtual_: bool,
    signal: bool,
}

const PLAIN: M = M { public: false, virtual_: false, signal: false };
const PUBLIC: M = M { public: true, virtual_: false, signal: false };
const VIRTUAL: M = M { public: false, virtual_: true, signal: false };
const SIGNAL: M = M { public: false, virtual_: false, signal: true };

fn method(m: M, name: &str, inputs: Vec<FnArg>, output: Option<TypeExpr>, body: Option<&str>) -> ImplItem {
    ImplItem {
        node: ImplItemKind::Method(ImplItemMethod {
            public: m.public,
            virtual_: m.virtual_,
            signal: m.signal,
            name: name.to_string(),
            inputs,
            output: match output {
                Some(t) => ReturnType::Type(t),
                None => ReturnType::Default,
            },
            body: body.map(|b| b.to_string()),
        }),
    }
}

fn imp(self_path: &str, trait_: Option<&str>, items: Vec<ImplItem>) -> Item {
    Item::Impl(Impl {
        is_interface: false,
        trait_: trait_.map(|t| t.to_string()),
        self_path: self_path.to_string(),
        items,
    })
}

fn build(items: Vec<Item>) -> Program {
    Program { items }
}

fn layout_program() -> Program {
    build(vec![
        class("ZeroSlots", None),
        class("OneSlot", None),
        imp("OneSlot", None, vec![
            method(VIRTUAL, "foo", vec![self_ref()], None, Some("{}")),
            method(PUBLIC, "static_method", vec![self_ref()], None, Some("{}")),
        ]),
        class("TwoSlots", None),
        imp("TwoSlots", None, vec![
            method(VIRTUAL, "foo", vec![self_ref()], None, Some("{}")),
            method(PUBLIC, "static_method", vec![self_ref()], None, Some("{}")),
            method(SIGNAL, "bar", vec![self_ref()], None, None),
        ]),
        class("ThreeSlots", Some("TwoSlots")),
        imp("ThreeSlots", None, vec![method(SIGNAL, "baz", vec![self_ref()], None, None)]),
    ])
}

const GOBJECT_SIZE: u64 = 24;
const GOBJECT_CLASS_SIZE: u64 = 136;
const POINTER_SIZE: u64 = 8;

fn struct_sizes(name: &str) -> (u64, u64) {
    let ast = layout_program();
    let program = hir::Program::from_ast_program(&ast).unwrap();
    let layout = program.classes.class_layout(name).unwrap();
    (
        layout.instance_struct_size(GOBJECT_SIZE),
        layout.class_struct_size(GOBJECT_CLASS_SIZE, POINTER_SIZE).unwrap(),
    )
}

#[test]
fn zero_slots() {
    let (instance, class) = struct_sizes("ZeroSlots");
    assert_eq!(instance, GOBJECT_SIZE);
    assert_eq!(class, GOBJECT_CLASS_SIZE);
}

#[test]
fn one_slot() {
    let (instance, class) = struct_sizes("OneSlot");
    assert_eq!(instance, GOBJECT_SIZE);
    assert_eq!(class, GOBJECT_CLASS_SIZE + POINTER_SIZE);
}

#[test]
fn two_slots() {
    let (instance, class) = struct_sizes("TwoSlots");
    assert_eq!(instance, GOBJECT_SIZE);
    assert_eq!(class, GOBJECT_CLASS_SIZE + 2 * POINTER_SIZE);
}

#[test]
fn three_slots() {
    let (instance, class) = struct_sizes("ThreeSlots");
    assert_eq!(instance, GOBJECT_SIZE);
    assert_eq!(class, GOBJECT_CLASS_SIZE + 3 * POINTER_SIZE);
}

#[test]
fn parent_slots_stay_in_front() {
    let ast = layout_program();
    let program = hir::Program::from_ast_program(&ast).unwrap();
    let parent = program.classes.class_layout("TwoSlots").unwrap();
    let child = program.classes.class_layout("ThreeSlots").unwrap();
    assert_eq!(child.len(), parent.len() + 1);
    for (i, s) in parent.slots.iter().enumerate() {
        assert_eq!(child.slots[i].owner, s.owner);
        assert_eq!(child.slots[i].name, s.name);
    }
    assert_eq!(child.slots[2].owner, "ThreeSlots");
    assert_eq!(child.slots[2].name, "baz");
}

#[test]
fn class_struct_size_overflow_is_reported() {
    let ast = layout_program();
    let program = hir::Program::from_ast_program(&ast).unwrap();
    let layout = program.classes.class_layout("TwoSlots").unwrap();
    assert_eq!(layout.class_struct_size(u64::MAX - 8, 8), None);
    assert_eq!(layout.class_struct_size(u64::MAX - 16, 8), Some(u64::MAX));
    assert!(program.classes.class_layout("Missing").is_none());
}

#[test]
fn checks_empty_class() {
    let ast = build(vec![class("Foo", None)]);
    assert!(check_program(&ast).is_ok());
    assert!(gobject_gen::checking::run());
}

#[test]
fn creates_trivial_class() {
    let ast = build(vec![class("Foo", None)]);
    let program = hir::Program::from_ast_program(&ast).unwrap();
    assert!(program.classes.len() == 1);
    let class = program.classes.get("Foo");
    assert_eq!(class.name, "Foo");
    let cx = ClassContext::new(&program, class);
    assert_eq!(cx.parent_instance, "glib::Object");
}

#[test]
fn creates_class_with_superclass() {
    let ast = build(vec![class("Foo", Some("Bar"))]);
    let program = hir::Program::from_ast_program(&ast).unwrap();
    assert!(program.classes.len() == 1);
    let class = program.classes.get("Foo");
    assert_eq!(class.name, "Foo");
    let cx = ClassContext::new(&program, class);
    assert_eq!(cx.parent_instance, "Bar");
}

#[test]
fn maps_ty_to_gtype() {
    assert_eq!(Ty::Unit.to_gtype_string(), Some("gobject_sys::G_TYPE_NONE"));
    assert_eq!(Ty::Char.to_gtype_string(), Some("gobject_sys::G_TYPE_UINT"));
    assert_eq!(Ty::Bool.to_gtype_string(), Some("gobject_sys::G_TYPE_BOOLEAN"));
    assert_eq!(Ty::Integer(IntTy::I8).to_gtype_string(), Some("gobject_sys::G_TYPE_CHAR"));
    assert_eq!(Ty::Integer(IntTy::I32).to_gtype_string(), Some("gobject_sys::G_TYPE_INT"));
    assert_eq!(Ty::Integer(IntTy::I64).to_gtype_string(), Some("gobject_sys::G_TYPE_INT64"));
    assert_eq!(Ty::Integer(IntTy::U8).to_gtype_string(), Some("gobject_sys::G_TYPE_UCHAR"));
    assert_eq!(Ty::Integer(IntTy::U32).to_gtype_string(), Some("gobject_sys::G_TYPE_UINT"));
    assert_eq!(Ty::Integer(IntTy::U64).to_gtype_string(), Some("gobject_sys::G_TYPE_UINT64"));
    assert_eq!(Ty::Integer(IntTy::I16).to_gtype_string(), None);
    assert_eq!(Ty::Integer(IntTy::Usize).to_gtype_string(), None);
}

#[test]
fn model_checks_all_pass() {
    assert!(hir::run());
}

#[test]
fn counts_uniquely_named_classes() {
    let ast = build(vec![class("A", None), class("B", Some("A")), class("C", None)]);
    let program = hir::Program::from_ast_program(&ast).unwrap();
    assert_eq!(program.classes.len(), 3);
    let names: Vec<&str> = program.classes.iter().iter().map(|c| c.name.as_str()).collect();
    assert_eq!(names, vec!["A", "B", "C"]);
}

#[test]
fn duplicate_class_is_refused() {
    let ast = build(vec![class("A", None), class("B", None), class("A", None)]);
    let r = hir::Program::from_ast_program(&ast);
    assert!(matches!(r, Err(Error::DuplicateClass(ref n)) if n == "A"));
}

#[test]
fn impl_for_unknown_class_is_refused() {
    let ast = build(vec![class("A", None), imp("B", None, vec![])]);
    let r = hir::Program::from_ast_program(&ast);
    assert!(matches!(r, Err(Error::UnknownSelfClass(ref n)) if n == "B"));
}

#[test]
fn plain_method_without_body_is_refused() {
    let ast = build(vec![
        class("A", None),
        imp("A", None, vec![method(PLAIN, "helper", vec![self_ref()], None, None)]),
    ]);
    let r = hir::Program::from_ast_program(&ast);
    assert!(matches!(r, Err(Error::MissingBody(ref n)) if n == "helper"));
}

#[test]
fn override_qualifiers_are_checked() {
    let cases = vec![
        (SIGNAL, ContextProblem::SignalOverride),
        (PLAIN, ContextProblem::NonVirtualOverride),
        (M { public: true, virtual_: true, signal: false }, ContextProblem::PublicOverride),
    ];
    for (m, problem) in cases {
        let ast = build(vec![
            class("P", None),
            class("C", Some("P")),
            imp("C", Some("P"), vec![method(m, "foo", vec![self_ref()], None, Some("{}"))]),
        ]);
        let r = hir::Program::from_ast_program(&ast);
        assert!(matches!(r, Err(Error::InvalidOverrideContext(ref n, p)) if n == "foo" && p == problem));
    }
}

#[test]
fn abstract_override_is_refused() {
    let ast = build(vec![
        class("P", None),
        class("C", Some("P")),
        imp("C", Some("P"), vec![method(VIRTUAL, "foo", vec![self_ref()], None, None)]),
    ]);
    let r = hir::Program::from_ast_program(&ast);
    assert!(matches!(r, Err(Error::MissingBody(ref n)) if n == "foo"));
}

#[test]
fn redundant_qualifiers_are_refused() {
    let cases = vec![
        (M { public: true, virtual_: false, signal: true }, ContextProblem::PublicSignal),
        (M { public: false, virtual_: true, signal: true }, ContextProblem::VirtualSignal),
        (M { public: true, virtual_: true, signal: false }, ContextProblem::PublicVirtual),
    ];
    for (m, problem) in cases {
        let ast = build(vec![
            class("A", None),
            imp("A", None, vec![method(m, "foo", vec![self_ref()], None, Some("{}"))]),
        ]);
        let r = hir::Program::from_ast_program(&ast);
        assert!(matches!(r, Err(Error::InvalidOverrideContext(ref n, p)) if n == "foo" && p == problem));
    }
}

#[test]
fn unsupported_source_types_are_refused() {
    let bad = vec![
        TypeExpr::Slice,
        TypeExpr::Ptr,
        TypeExpr::Tuple(2),
        TypeExpr::Path {
            qualified_self: false,
            path: Path {
                leading_colon: false,
                segments: vec![PathSegment { ident: "Vec".to_string(), has_arguments: true }],
            },
        },
        TypeExpr::Path { qualified_self: true, path: path("T") },
        TypeExpr::Reference { has_lifetime: true, mutable: false, elem: Box::new(ty("Foo")) },
        TypeExpr::Reference { has_lifetime: false, mutable: true, elem: Box::new(ty("Foo")) },
    ];
    for t in bad {
        let ast = build(vec![
            class("A", None),
            imp("A", None, vec![method(PUBLIC, "take", vec![self_ref(), arg("x", t)], None, Some("{}"))]),
        ]);
        let r = hir::Program::from_ast_program(&ast);
        assert!(matches!(r, Err(Error::UnsupportedType(ref n)) if n == "take"));
    }
}

#[test]
fn receiver_must_be_shared_self() {
    let receivers = vec![
        vec![FnArg::SelfRef { has_lifetime: false, mutable: true }],
        vec![FnArg::SelfValue],
        vec![],
        vec![arg("x", ty("u32"))],
        vec![self_ref(), self_ref()],
        vec![self_ref(), FnArg::Captured { pat: Pat::Other, ty: ty("u32") }],
    ];
    for inputs in receivers {
        let ast = build(vec![
            class("A", None),
            imp("A", None, vec![method(PUBLIC, "m", inputs, None, Some("{}"))]),
        ]);
        let r = hir::Program::from_ast_program(&ast);
        assert!(matches!(r, Err(Error::UnsupportedArgumentPattern(ref n)) if n == "m"));
    }
}

#[test]
fn slots_and_properties_keep_declaration_order() {
    let ast = build(vec![
        class("A", None),
        imp("A", None, vec![
            method(SIGNAL, "s1", vec![self_ref()], None, None),
            method(PUBLIC, "m1", vec![self_ref(), arg("x", ty("u32"))], Some(ty("u32")), Some("{ x }")),
            ImplItem {
                node: ImplItemKind::Prop(ImplProp {
                    name: "size".to_string(),
                    type_: ty("u32"),
                    items: vec![ImplPropBlock::Getter("{ 0 }".to_string())],
                }),
            },
        ]),
        imp("A", None, vec![method(VIRTUAL, "v1", vec![self_ref()], Some(ty("bool")), None)]),
    ]);
    let program = hir::Program::from_ast_program(&ast).unwrap();
    let class = program.classes.get("A");
    let names: Vec<&str> = class.slots.iter().map(|s| s.sig().name.as_str()).collect();
    assert_eq!(names, vec!["s1", "m1", "v1"]);
    assert!(matches!(class.slots[0], Slot::Signal(_)));
    assert!(matches!(class.slots[1], Slot::Method(_)));
    assert!(matches!(class.slots[2], Slot::VirtualMethod(_)));
    assert_eq!(class.properties.len(), 1);
    assert_eq!(class.properties[0].name, "size");
    assert!(class.properties[0].decl.getter().is_some());
    assert!(class.properties[0].decl.setter().is_none());
    let layout = program.classes.class_layout("A").unwrap();
    assert_eq!(layout.len(), 2);
}

fn override_program(method_name: &str) -> Program {
    build(vec![
        class("Parent", None),
        imp("Parent", None, vec![method(VIRTUAL, "foo", vec![self_ref()], None, None)]),
        class("Child", Some("Parent")),
        imp("Child", Some("Parent"), vec![method(VIRTUAL, method_name, vec![self_ref()], None, Some("{ }"))]),
    ])
}

#[test]
fn override_installs_into_parent_slot() {
    let ast = override_program("foo");
    let program = hir::Program::from_ast_program(&ast).unwrap();
    let child = program.classes.get("Child");
    assert_eq!(child.slots.len(), 0);
    assert_eq!(child.overrides.len(), 1);
    assert_eq!(child.overrides[0].parent, "Parent");
    let parent_layout = program.classes.class_layout("Parent").unwrap();
    let child_layout = program.classes.class_layout("Child").unwrap();
    assert_eq!(child_layout.len(), parent_layout.len());
    let targets = program.classes.override_targets("Child").unwrap();
    assert_eq!(targets.len(), 1);
    assert_eq!(targets[0].ancestor, "Parent");
    assert_eq!(targets[0].method, "foo");
    assert_eq!(targets[0].index, Some(0));
    let code = codegen(&program).unwrap();
    assert!(code.contains(
        "(*(klass as *mut _ as *mut <Parent as glib::wrapper::Wrapper>::GlibClassType)).foo = Some(ChildFfi::foo_slot_trampoline);"
    ));
    assert!(code.contains("pub struct ChildClass {\npub parent_class: <Parent as glib::wrapper::Wrapper>::GlibClassType,\n}"));
}

#[test]
fn override_handler_is_what_its_trampoline_calls() {
    let ast = override_program("foo");
    let program = hir::Program::from_ast_program(&ast).unwrap();
    let cx = ClassContext::new(&program, program.classes.get("Child"));
    assert_eq!(cx.imp_slot_default_handlers(), "fn foo_impl(&self, ) -> () { }\n");
    let trampolines = cx.instance_slot_trampolines();
    assert!(trampolines.contains(
        "unsafe extern \"C\" fn foo_slot_trampoline(this: *mut <Parent as glib::wrapper::Wrapper>::GlibType, ) -> () {"
    ));
    assert!(trampolines.contains("instance.foo_impl()"));
    let code = codegen(&program).unwrap();
    assert!(code.contains("fn foo_impl(&self, ) -> () { }\n"));
    assert!(!code.contains("fn foo(&self, ) -> () { }"));
}

#[test]
fn override_of_missing_method_is_refused() {
    let ast = override_program("bar");
    let program = hir::Program::from_ast_program(&ast).unwrap();
    let r = program.classes.override_targets("Child");
    assert!(matches!(r, Err(Error::InvalidOverrideContext(ref n, ContextProblem::UnknownOverrideTarget)) if n == "bar"));
    let r = codegen(&program);
    assert!(matches!(r, Err(Error::InvalidOverrideContext(ref n, ContextProblem::UnknownOverrideTarget)) if n == "bar"));
    assert!(matches!(program.classes.override_targets("Nobody"), Err(Error::UnknownSelfClass(_))));
}

#[test]
fn override_of_outside_class_is_not_resolved() {
    let ast = build(vec![
        class("Button", Some("gtk::Widget")),
        imp("Button", Some("Widget"), vec![method(VIRTUAL, "draw", vec![self_ref()], None, Some("{ }"))]),
    ]);
    let program = hir::Program::from_ast_program(&ast).unwrap();
    let targets = program.classes.override_targets("Button").unwrap();
    assert_eq!(targets[0].index, None);
    assert!(codegen(&program).is_ok());
}

#[test]
fn overrides_are_grouped_by_ancestor() {
    let ast = build(vec![
        class("P", None),
        imp("P", None, vec![
            method(VIRTUAL, "a", vec![self_ref()], None, None),
            method(VIRTUAL, "b", vec![self_ref()], None, None),
        ]),
        class("C", Some("P")),
        imp("C", Some("P"), vec![method(VIRTUAL, "a", vec![self_ref()], None, Some("{ }"))]),
        imp("C", Some("P"), vec![method(VIRTUAL, "b", vec![self_ref()], None, Some("{ }"))]),
        imp("C", Some("P"), vec![]),
    ]);
    let program = hir::Program::from_ast_program(&ast).unwrap();
    let c = program.classes.get("C");
    assert_eq!(c.overrides.len(), 1);
    assert_eq!(c.overrides[0].methods.len(), 2);
    let targets = program.classes.override_targets("C").unwrap();
    assert_eq!(targets.iter().map(|t| t.index).collect::<Vec<_>>(), vec![Some(0), Some(1)]);
}

#[test]
fn inheritance_cycle_is_refused() {
    let ast = build(vec![class("A", Some("B")), class("B", Some("A"))]);
    let program = hir::Program::from_ast_program(&ast).unwrap();
    assert!(program.classes.class_layout("A").is_none());
    let r = codegen(&program);
    assert!(matches!(r, Err(Error::InheritanceCycle(ref n)) if n == "A"));
}

#[test]
fn abstract_handlers_name_the_method() {
    let ast = build(vec![
        class("A", None),
        imp("A", None, vec![
            method(VIRTUAL, "foo", vec![self_ref()], None, None),
            method(SIGNAL, "changed", vec![self_ref(), arg("v", ty("u32"))], None, None),
        ]),
    ]);
    let program = hir::Program::from_ast_program(&ast).unwrap();
    let cx = ClassContext::new(&program, program.classes.get("A"));
    let handlers = cx.imp_slot_default_handlers();
    assert!(handlers.contains(
        "fn foo_impl(&self, ) -> () {\n    panic!(\"Called abstract method {} with no implementation\", stringify!(foo_impl));\n}\n"
    ));
    assert!(handlers.contains(
        "#[allow(unused_variables)]\nfn changed_impl(&self, v: u32, ) -> () {\n    panic!(\"Called default signal handler {} with no implementation\", stringify!(changed_impl));\n}\n"
    ));
}

fn signaler() -> Program {
    build(vec![
        Item::Class(Class {
            name: "Signaler".to_string(),
            extends: None,
            fields: vec![Field { name: "val".to_string(), ty: "Cell<u32>".to_string() }],
        }),
        imp("Signaler", None, vec![
            method(SIGNAL, "value_changed", vec![self_ref()], None, None),
            method(SIGNAL, "value_changed_to", vec![self_ref(), arg("v", ty("u32"))], None, None),
            method(SIGNAL, "gimme_an_int", vec![self_ref()], Some(ty("u32")), None),
            method(PUBLIC, "set_value", vec![self_ref(), arg("v", ty("u32"))], None, Some("{ self.emit_value_changed(); }")),
        ]),
    ])
}

#[test]
fn signals_are_registered_with_their_types() {
    let ast = signaler();
    let program = hir::Program::from_ast_program(&ast).unwrap();
    let cx = ClassContext::new(&program, program.classes.get("Signaler"));
    let decls = cx.signal_declarations();
    assert!(decls.contains("let param_gtypes = [];\nPRIV.value_changed_signal_id = gobject_sys::g_signal_newv(b\"value_changed\\0\""));
    assert!(decls.contains("let param_gtypes = [gobject_sys::G_TYPE_UINT, ];\nPRIV.value_changed_to_signal_id"));
    assert!(decls.contains("ptr::null_mut(), None, ptr::null_mut(), None, gobject_sys::G_TYPE_NONE, 1, mut_override"));
    assert!(decls.contains("ptr::null_mut(), None, ptr::null_mut(), None, gobject_sys::G_TYPE_UINT, 0, mut_override"));
    let ids = cx.signal_id_names();
    assert_eq!(ids, vec!["value_changed_signal_id", "value_changed_to_signal_id", "gimme_an_int_signal_id"]);
    assert_eq!(cx.signals().len(), 3);
    let emits = cx.signal_emit_methods();
    assert!(emits.contains("fn emit_value_changed_to(&self, v: u32, ) -> () {"));
    assert!(emits.contains("(&v as &glib::ToValue).to_value(), "));
    assert!(emits.contains("gobject_sys::g_value_init(ret.to_glib_none_mut().0, gobject_sys::G_TYPE_UINT);"));
}

#[test]
fn signal_connect_boxes_the_closure() {
    let ast = signaler();
    let program = hir::Program::from_ast_program(&ast).unwrap();
    let cx = ClassContext::new(&program, program.classes.get("Signaler"));
    let fns = cx.slot_trait_fns();
    assert!(fns.contains("fn connect_value_changed_to<F: Fn(&Self, u32, ) -> () + 'static>(&self, f: F) -> glib::SignalHandlerId;"));
    assert!(fns.contains("fn set_value(&self, v: u32, ) -> ();"));
    let impls = cx.slot_trait_impls();
    assert!(impls.contains("Box::new(Box::new(f));"));
    assert!(impls.contains("mem::transmute(value_changed_to_signal_handler_trampoline::<Self> as usize)"));
    assert!(impls.contains("unsafe { imp::signaler_set_value(self.to_glib_none().0, v, ) }"));
    let trampolines = cx.signal_trampolines();
    assert!(trampolines.contains("unsafe extern \"C\" fn gimme_an_int_signal_handler_trampoline<P>(this: *mut imp::SignalerFfi, f: glib_ffi::gpointer) -> u32"));
}

#[test]
fn signal_with_unregistrable_type_is_refused() {
    let ast = build(vec![
        class("A", None),
        imp("A", None, vec![method(SIGNAL, "moved", vec![self_ref(), arg("dx", ty("i16"))], None, None)]),
    ]);
    let program = hir::Program::from_ast_program(&ast).unwrap();
    let r = codegen(&program);
    assert!(matches!(r, Err(Error::UnsupportedType(ref n)) if n == "moved"));
}

#[test]
fn owned_types_are_refused_only_at_the_boundary() {
    let private_ok = build(vec![
        class("A", None),
        imp("A", None, vec![method(PLAIN, "helper", vec![self_ref(), arg("s", ty("String"))], None, Some("{ }"))]),
    ]);
    let program = hir::Program::from_ast_program(&private_ok).unwrap();
    assert!(codegen(&program).is_ok());
    let public_bad = build(vec![
        class("A", None),
        imp("A", None, vec![method(PUBLIC, "take", vec![self_ref(), arg("s", ty("String"))], None, Some("{ }"))]),
    ]);
    let program = hir::Program::from_ast_program(&public_bad).unwrap();
    assert!(matches!(codegen(&program), Err(Error::UnsupportedType(ref n)) if n == "take"));
}

#[test]
fn counter_class_exports_its_methods() {
    let ast = build(vec![
        Item::Class(Class {
            name: "Counter".to_string(),
            extends: None,
            fields: vec![Field { name: "f".to_string(), ty: "Cell<u32>".to_string() }],
        }),
        imp("Counter", None, vec![
            method(PUBLIC, "add", vec![self_ref(), arg("x", ty("u32"))], Some(ty("u32")),
                Some("{ self.get_priv().f.set(self.get() + x); self.get() }")),
            method(PUBLIC, "get", vec![self_ref()], Some(ty("u32")), Some("{ self.get_priv().f.get() }")),
        ]),
    ]);
    let program = hir::Program::from_ast_program(&ast).unwrap();
    let code = codegen(&program).unwrap();
    assert!(code.starts_with("pub mod CounterMod {\n"));
    assert!(code.contains("pub unsafe extern \"C\" fn counter_add(this: *mut CounterFfi, x: u32, ) -> u32 {"));
    assert!(code.contains("instance.add_impl(x, )"));
    assert!(code.contains("fn add_impl(&self, x: u32, ) -> u32 { self.get_priv().f.set(self.get() + x); self.get() }"));
    assert!(code.contains("#[derive(Default)]\nstruct CounterPriv {\nf: Cell<u32>,\n}"));
    assert!(code.contains("pub unsafe extern \"C\" fn counter_get_type() -> glib_ffi::GType {"));
    assert!(code.contains("ONCE.call_once(|| {"));
    assert!(code.contains("ptr::write(_private, Some(<CounterPriv as Default>::default()));"));
    assert!(code.contains("let _ = (*_private).take();"));
    assert!(code.ends_with("pub use self::CounterMod::*;\n"));
}

#[test]
fn type_conversions_follow_the_abi() {
    let m = ImplItemMethod {
        public: true,
        virtual_: false,
        signal: false,
        name: "f".to_string(),
        inputs: vec![self_ref(), arg("b", ty("bool")), arg("c", ty("char")), arg("o", TypeExpr::Reference {
            has_lifetime: false,
            mutable: false,
            elem: Box::new(ty("gtk::Widget")),
        })],
        output: ReturnType::Type(ty("bool")),
        body: Some("{ true }".to_string()),
    };
    let slot = hir::translate_method(&m).unwrap();
    let sig = slot.sig();
    assert_eq!(
        sig.input_args_with_glib_types(),
        "b: <bool as ToGlib>::GlibType, c: <char as ToGlib>::GlibType, o: <gtk::Widget as GlibPtrDefault>::GlibType, "
    );
    assert_eq!(
        sig.input_args_from_glib_types(),
        "<bool as FromGlib<_>>::from_glib(b), <char as FromGlib<_>>::from_glib(c), &<gtk::Widget as FromGlibPtrBorrow<_>>::from_glib_borrow(o), "
    );
    assert_eq!(
        sig.input_args_to_glib_types(),
        "<bool as ToGlib>::to_glib(&b), <char as ToGlib>::to_glib(&c), <gtk::Widget as ToGlibPtr<_>>::to_glib_none(o).0, "
    );
    assert_eq!(sig.input_arg_types(), "bool, char, &gtk::Widget, ");
    assert_eq!(sig.input_arg_names(), "b, c, o, ");
    assert_eq!(sig.decl_inputs(), "&self, b: bool, c: char, o: &gtk::Widget, ");
    assert_eq!(sig.output_glib_type(), "<bool as ToGlib>::GlibType");
    assert_eq!(sig.ret_to_glib("x"), "<bool as ToGlib>::to_glib(&x)");
    assert_eq!(sig.ret_from_glib_fn("x"), "<bool as FromGlib<_>>::from_glib(x)");
}

#[test]
fn exported_names_use_snake_case() {
    let ast = build(vec![class("GtkRBTree", None)]);
    let program = hir::Program::from_ast_program(&ast).unwrap();
    let cx = ClassContext::new(&program, program.classes.get("GtkRBTree"));
    assert_eq!(cx.instance_get_type_fn_name(), "gtk_rbtree_get_type");
    assert_eq!(cx.exported_fn_name("insert"), "gtk_rbtree_insert");
    assert_eq!(cx.method_ffi_name("insert"), "gtk_rbtree_insert");
    assert_eq!(cx.imp_new_fn_name(), "gtk_rbtree_new");
    assert_eq!(cx.class_name, "GtkRBTreeClass");
    assert_eq!(cx.instance_name_ffi, "GtkRBTreeFfi");
    assert_eq!(cx.parent_class_ffi, "<glib::Object as glib::wrapper::Wrapper>::GlibClassType");
}

#[test]
fn properties_get_numbered_ids() {
    let prop = |name: &str| ImplItem {
        node: ImplItemKind::Prop(ImplProp { name: name.to_string(), type_: ty("u32"), items: vec![] }),
    };
    let ast = build(vec![class("A", None), imp("A", None, vec![prop("width"), prop("height")])]);
    let program = hir::Program::from_ast_program(&ast).unwrap();
    let cx = ClassContext::new(&program, program.classes.get("A"));
    assert_eq!(cx.properties_enum(), "#[repr(u32)]\nenum Properties {\nwidth = 1,\nheight = 2,\n}\n");
    let ast = build(vec![class("B", None)]);
    let program = hir::Program::from_ast_program(&ast).unwrap();
    let cx = ClassContext::new(&program, program.classes.get("B"));
    assert_eq!(cx.properties_enum(), "");
}

#[test]
fn interfaces_get_marker_structs() {
    let ast = build(vec![
        Item::Interface(Interface { name: "Foo".to_string(), items: vec![] }),
        class("A", None),
    ]);
    let program = hir::Program::from_ast_program(&ast).unwrap();
    assert_eq!(program.interfaces.len(), 1);
    let code = codegen(&program).unwrap();
    assert!(code.contains("pub mod FooMod {"));
    assert!(code.contains("pub struct FooIface {\npub parent_iface: gobject_ffi::GTypeInterface,\n}"));
    assert!(code.find("pub mod AMod").unwrap() < code.find("pub mod FooMod").unwrap());
}

#[test]
fn interface_implementation_is_refused() {
    let ast = build(vec![
        class("A", None),
        Item::Impl(Impl { is_interface: true, trait_: Some("Foo".to_string()), self_path: "A".to_string(), items: vec![] }),
    ]);
    let r = hir::Program::from_ast_program(&ast);
    assert!(matches!(r, Err(Error::InvalidOverrideContext(ref n, ContextProblem::InterfaceImplementation)) if n == "A"));
}

#[test]
fn slot_reservation_is_refused() {
    let ast = build(vec![
        class("A", None),
        imp("A", None, vec![ImplItem { node: ImplItemKind::ReserveSlots(4) }]),
    ]);
    let r = hir::Program::from_ast_program(&ast);
    assert!(matches!(r, Err(Error::InvalidOverrideContext(ref n, ContextProblem::SlotReservation)) if n == "A"));
}
