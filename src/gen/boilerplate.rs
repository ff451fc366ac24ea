//! The one-time boilerplate of a class: its module, instance and class
//! structs, type registration, construction and destruction, and the places
//! where the per-slot and per-signal code is put.
use vstd::prelude::*;
use vstd::string::*;
use crate::ast;
use crate::gen::class::ClassContext;
use crate::gen::imp::{
    free_private_text, get_priv_text, init_priv_text, overrides_text, properties_enum_text,
    register_private_text, slots_text, SlotForm,
};
use crate::gen::imp::field_text;
use crate::glib_utils::{glib_callback_guard, guard_text};
use crate::hir::{SlotKind, SlotView};
use crate::layout::{own_slots, vtable_slots, LayoutSlot};

verus! {

/// The parent clause of the wrapper type: none for a direct subclass of the root type.
pub open spec fn parent_decl_text(cx: &ClassContext) -> Seq<char> {
    if cx.class.gobject_parent {
        Seq::empty()
    } else {
        " : "@ + cx.parent_instance@
    }
}

/// The private fields as struct fields, in order.
pub open spec fn fields_text(fs: Seq<ast::Field>) -> Seq<char>
    decreases fs.len(),
{
    if fs.len() == 0 {
        Seq::empty()
    } else {
        fields_text(fs.drop_last()) + fs.last().name@ + ": "@ + fs.last().ty@ + ",\n"@
    }
}

fn private_fields_string(fs: &Vec<&ast::Field>) -> (r: String)
    ensures
        r@ == fields_text(fs@.map_values(|f: &ast::Field| *f)),
{
    let ghost v = fs@.map_values(|f: &ast::Field| *f);
    let mut r = String::new();
    let mut i: usize = 0;
    while i < fs.len()
        invariant
            v == fs@.map_values(|f: &ast::Field| *f),
            i <= fs@.len(),
            r@ == fields_text(v.subrange(0, i as int)),
        decreases fs.len() - i,
    {
        proof {
            assert(v.subrange(0, i + 1).drop_last() =~= v.subrange(0, i as int));
            assert(v[i as int] == *fs@[i as int]);
        }
        r.append(fs[i].name.as_str());
        r.append(": ");
        r.append(fs[i].ty.as_str());
        r.append(",\n");
        i += 1;
    }
    proof {
        assert(v.subrange(0, i as int) =~= v);
    }
    r
}

/// The opening of the class's module: its imports and the wrapper type.
pub open spec fn module_head_text(cx: &ClassContext) -> Seq<char> {
    "pub mod "@
        + cx.module_name@
        + " {\n#![allow(non_snake_case)]\nextern crate glib_sys as glib_ffi;\n"@
        + "extern crate gobject_sys as gobject_ffi;\nextern crate glib;\nuse glib::IsA;\n"@
        + "#[allow(unused_imports)]\nuse glib::object::Downcast;\nuse glib::translate::*;\n"@
        + "use std::ptr;\nuse std::mem;\n#[allow(unused_imports)]\nuse super::*;\n"@
        + "glib_wrapper! {\npub struct "@
        + cx.instance_name@
        + "(Object<imp::"@
        + cx.instance_name_ffi@
        + ", imp::"@
        + cx.class_name@
        + ">)"@
        + parent_decl_text(cx)
        + ";\nmatch fn {\nget_type => || imp::"@
        + cx.lower_name@
        + "_get_type(),\n}\n}\n"@
}

/// The instance struct, which embeds the parent's first; the class struct, which embeds the parent's class struct first and then holds one slot per virtual method or signal; the per-class state; and the private block.
pub open spec fn imp_structs_text(cx: &ClassContext) -> Seq<char> {
    "pub mod imp {\n#[allow(unused_imports)]\nuse super::super::*;\nuse super::glib;\n"@
        + "use super::glib_ffi;\nuse super::gobject_ffi;\nuse std::mem;\nuse std::ptr;\n"@
        + "#[allow(unused_imports)]\nuse glib::translate::*;\n#[repr(C)]\npub struct "@
        + cx.instance_name_ffi@
        + " {\npub parent: "@
        + cx.parent_instance_ffi@
        + ",\n}\n#[repr(C)]\npub struct "@
        + cx.class_name@
        + " {\npub parent_class: "@
        + cx.parent_class_ffi@
        + ",\n"@
        + slots_text(cx, SlotForm::Field, cx.class@.slots)
        + "}\n"@
        + properties_enum_text(cx.class.properties@)
        + "struct "@
        + cx.private_class_name@
        + " {\nparent_class: *const "@
        + cx.parent_class_ffi@
        + ",\n"@
        + slots_text(cx, SlotForm::SignalIdField, cx.class@.slots)
        + "}\nstatic mut PRIV: "@
        + cx.private_class_name@
        + " = "@
        + cx.private_class_name@
        + " {\nparent_class: 0 as *const _,\n"@
        + slots_text(cx, SlotForm::SignalIdInit, cx.class@.slots)
        + "};\n#[derive(Default)]\nstruct "@
        + cx.private_struct_name@
        + " {\n"@
        + fields_text(cx.class@.private_fields)
        + "}\n"@
}

/// The handlers on the instance: the default handlers and emitters, construction and destruction, and the trampolines.
pub open spec fn imp_instance_text(cx: &ClassContext) -> Seq<char> {
    "impl super::"@
        + cx.instance_name@
        + " {\n"@
        + get_priv_text(cx)
        + slots_text(cx, SlotForm::DefaultHandler, cx.class@.slots) + overrides_text(cx, SlotForm::DefaultHandler, cx.class@.overrides)
        + slots_text(cx, SlotForm::SignalEmit, cx.class@.slots)
        + "}\nimpl "@
        + cx.instance_name_ffi@
        + " {\n#[allow(dead_code)]\nfn get_class(&self) -> &"@
        + cx.class_name@
        + " {\nunsafe {\n"@
        + "let klass = (*(self as *const _ as *const gobject_ffi::GTypeInstance)).g_class;\n"@
        + "&*(klass as *const "@
        + cx.class_name@
        + ")\n}\n}\n"@
        + "unsafe extern \"C\" fn init(obj: *mut gobject_ffi::GTypeInstance, _klass: glib_ffi::gpointer) {\n"@
        + "#[allow(unused_variables)]\nlet obj = obj;\n"@
        + guard_text()
        + init_priv_text(cx)
        + "}\nunsafe extern \"C\" fn finalize(obj: *mut gobject_ffi::GObject) {\n"@
        + guard_text()
        + free_private_text(cx)
        + "(*(PRIV.parent_class as *mut gobject_ffi::GObjectClass)).finalize.map(|f| f(obj));\n"@
        + "}\n"@
        + slots_text(cx, SlotForm::Trampoline, cx.class@.slots) + overrides_text(cx, SlotForm::Trampoline, cx.class@.overrides)
        + "}\n"@
}

/// Class initialisation: the private block is reserved, the trampolines installed, the signals registered and the parent class kept.
pub open spec fn imp_class_init_text(cx: &ClassContext) -> Seq<char> {
    "impl "@
        + cx.class_name@
        + " {\n"@
        + "unsafe extern \"C\" fn init(klass: glib_ffi::gpointer, _klass_data: glib_ffi::gpointer) {\n"@
        + guard_text()
        + register_private_text(cx)
        + "{\nlet gobject_class = &mut *(klass as *mut gobject_ffi::GObjectClass);\n"@
        + "gobject_class.finalize = Some("@
        + cx.instance_name_ffi@
        + "::finalize);\n}\n{\n#[allow(unused_variables)]\nlet klass = &mut *(klass as *mut "@
        + cx.class_name@
        + ");\n"@
        + slots_text(cx, SlotForm::Assignment, cx.class@.slots) + overrides_text(cx, SlotForm::Assignment, cx.class@.overrides)
        + "}\n{\n"@
        + slots_text(cx, SlotForm::SignalDecl, cx.class@.slots)
        + "}\nPRIV.parent_class = gobject_ffi::g_type_class_peek_parent(klass) as *const "@
        + cx.parent_class_ffi@
        + ";\n}\n}\n"@
}

/// The exported constructor and methods, and the type registration, which a one-time guard runs once however many threads call it first.
pub open spec fn imp_exports_text(cx: &ClassContext) -> Seq<char> {
    "#[no_mangle]\npub unsafe extern \"C\" fn "@
        + cx.lower_name@
        + "_new() -> *mut "@
        + cx.instance_name_ffi@
        + " {\n"@
        + guard_text()
        + "let this = gobject_ffi::g_object_newv("@
        + cx.lower_name@
        + "_get_type(), 0, ptr::null_mut());\nthis as *mut "@
        + cx.instance_name_ffi@
        + "\n}\n"@
        + slots_text(cx, SlotForm::ExternMethod, cx.class@.slots)
        + "#[no_mangle]\npub unsafe extern \"C\" fn "@
        + cx.lower_name@
        + "_get_type() -> glib_ffi::GType {\n"@
        + guard_text()
        + "use std::sync::{Once, ONCE_INIT};\nuse std::u16;\n"@
        + "static mut TYPE: glib_ffi::GType = gobject_ffi::G_TYPE_INVALID;\n"@
        + "static ONCE: Once = ONCE_INIT;\nONCE.call_once(|| {\n"@
        + "let class_size = mem::size_of::<"@
        + cx.class_name@
        + ">();\nassert!(class_size <= u16::MAX as usize);\n"@
        + "let instance_size = mem::size_of::<"@
        + cx.instance_name_ffi@
        + ">();\nassert!(instance_size <= u16::MAX as usize);\n"@
        + "TYPE = gobject_ffi::g_type_register_static_simple(<"@
        + cx.parent_instance@
        + " as glib::StaticType>::static_type().to_glib(), b\""@
        + cx.instance_name@
        + "\\0\" as *const u8 as *const i8, class_size as u32, Some("@
        + cx.class_name@
        + "::init), instance_size as u32, Some("@
        + cx.instance_name_ffi@
        + "::init), gobject_ffi::GTypeFlags::empty());\n});\nTYPE\n}\n}\n"@
}

/// The constructor, the extension trait and the signal handler trampolines, and the end of the module.
pub open spec fn module_tail_text(cx: &ClassContext) -> Seq<char> {
    "impl "@
        + cx.instance_name@
        + " {\npub fn new() -> "@
        + cx.instance_name@
        + " {\nunsafe { from_glib_full(imp::"@
        + cx.lower_name@
        + "_new()) }\n}\n}\npub trait "@
        + cx.instance_ext@
        + " {\n"@
        + slots_text(cx, SlotForm::TraitFn, cx.class@.slots)
        + "}\nimpl<O: IsA<"@
        + cx.instance_name@
        + "> + IsA<glib::object::Object> + glib::object::ObjectExt> "@
        + cx.instance_ext@
        + " for O {\n"@
        + slots_text(cx, SlotForm::TraitImpl, cx.class@.slots)
        + "}\n"@
        + slots_text(cx, SlotForm::SignalTrampoline, cx.class@.slots)
        + "}\npub use self::"@
        + cx.module_name@
        + "::*;\n"@
}

/// The whole generated module of a class.
pub open spec fn boilerplate_text(cx: &ClassContext) -> Seq<char> {
    module_head_text(cx) + imp_structs_text(cx) + imp_instance_text(cx) + imp_class_init_text(cx)
        + imp_exports_text(cx) + module_tail_text(cx)
}

impl<'ast> ClassContext<'ast> {
    fn parent_decl(&self) -> (r: String)
        ensures
            r@ == parent_decl_text(self),
    {
        if self.class.gobject_parent {
            String::new()
        } else {
            let mut r = String::from_str(" : ");
            r.append(self.parent_instance.as_str());
            r
        }
    }

    fn module_head(&self) -> (r: String)
        requires
            self.abi_ready(),
        ensures
            r@ == module_head_text(self),
    {
        let parent_decl = self.parent_decl();
        let mut r = String::from_str("pub mod ");
        r.append(self.module_name.as_str());
        r.append(" {\n#![allow(non_snake_case)]\nextern crate glib_sys as glib_ffi;\n");
        r.append("extern crate gobject_sys as gobject_ffi;\nextern crate glib;\nuse glib::IsA;\n");
        r.append("#[allow(unused_imports)]\nuse glib::object::Downcast;\nuse glib::translate::*;\n");
        r.append("use std::ptr;\nuse std::mem;\n#[allow(unused_imports)]\nuse super::*;\n");
        r.append("glib_wrapper! {\npub struct ");
        r.append(self.instance_name.as_str());
        r.append("(Object<imp::");
        r.append(self.instance_name_ffi.as_str());
        r.append(", imp::");
        r.append(self.class_name.as_str());
        r.append(">)");
        r.append(parent_decl.as_str());
        r.append(";\nmatch fn {\nget_type => || imp::");
        r.append(self.lower_name.as_str());
        r.append("_get_type(),\n}\n}\n");
        r
    }

    fn imp_structs(&self) -> (r: String)
        requires
            self.abi_ready(),
        ensures
            r@ == imp_structs_text(self),
    {
        let slots = self.slots();
        let props = self.properties_enum();
        let id_fields = self.emit_slots(SlotForm::SignalIdField);
        let id_inits = self.emit_slots(SlotForm::SignalIdInit);
        let fields = private_fields_string(&self.class.private_fields);
        let mut r = String::from_str("pub mod imp {\n#[allow(unused_imports)]\nuse super::super::*;\nuse super::glib;\n");
        r.append("use super::glib_ffi;\nuse super::gobject_ffi;\nuse std::mem;\nuse std::ptr;\n");
        r.append("#[allow(unused_imports)]\nuse glib::translate::*;\n#[repr(C)]\npub struct ");
        r.append(self.instance_name_ffi.as_str());
        r.append(" {\npub parent: ");
        r.append(self.parent_instance_ffi.as_str());
        r.append(",\n}\n#[repr(C)]\npub struct ");
        r.append(self.class_name.as_str());
        r.append(" {\npub parent_class: ");
        r.append(self.parent_class_ffi.as_str());
        r.append(",\n");
        r.append(slots.as_str());
        r.append("}\n");
        r.append(props.as_str());
        r.append("struct ");
        r.append(self.private_class_name.as_str());
        r.append(" {\nparent_class: *const ");
        r.append(self.parent_class_ffi.as_str());
        r.append(",\n");
        r.append(id_fields.as_str());
        r.append("}\nstatic mut PRIV: ");
        r.append(self.private_class_name.as_str());
        r.append(" = ");
        r.append(self.private_class_name.as_str());
        r.append(" {\nparent_class: 0 as *const _,\n");
        r.append(id_inits.as_str());
        r.append("};\n#[derive(Default)]\nstruct ");
        r.append(self.private_struct_name.as_str());
        r.append(" {\n");
        r.append(fields.as_str());
        r.append("}\n");
        r
    }

    fn imp_instance(&self) -> (r: String)
        requires
            self.abi_ready(),
        ensures
            r@ == imp_instance_text(self),
    {
        let get_priv = self.get_priv_fn();
        let handlers = self.imp_slot_default_handlers();
        let emits = self.signal_emit_methods();
        let guard = glib_callback_guard();
        let init_priv = self.init_priv_with_default();
        let free_priv = self.free_instance_private();
        let trampolines = self.instance_slot_trampolines();
        let mut r = String::from_str("impl super::");
        r.append(self.instance_name.as_str());
        r.append(" {\n");
        r.append(get_priv.as_str());
        r.append(handlers.as_str());
        r.append(emits.as_str());
        r.append("}\nimpl ");
        r.append(self.instance_name_ffi.as_str());
        r.append(" {\n#[allow(dead_code)]\nfn get_class(&self) -> &");
        r.append(self.class_name.as_str());
        r.append(" {\nunsafe {\n");
        r.append("let klass = (*(self as *const _ as *const gobject_ffi::GTypeInstance)).g_class;\n");
        r.append("&*(klass as *const ");
        r.append(self.class_name.as_str());
        r.append(")\n}\n}\n");
        r.append("unsafe extern \"C\" fn init(obj: *mut gobject_ffi::GTypeInstance, _klass: glib_ffi::gpointer) {\n");
        r.append("#[allow(unused_variables)]\nlet obj = obj;\n");
        r.append(guard.as_str());
        r.append(init_priv.as_str());
        r.append("}\nunsafe extern \"C\" fn finalize(obj: *mut gobject_ffi::GObject) {\n");
        r.append(guard.as_str());
        r.append(free_priv.as_str());
        r.append("(*(PRIV.parent_class as *mut gobject_ffi::GObjectClass)).finalize.map(|f| f(obj));\n");
        r.append("}\n");
        r.append(trampolines.as_str());
        r.append("}\n");
        r
    }

    fn imp_class_init(&self) -> (r: String)
        requires
            self.abi_ready(),
        ensures
            r@ == imp_class_init_text(self),
    {
        let guard = glib_callback_guard();
        let register = self.register_instance_private();
        let assignments = self.slot_assignments();
        let decls = self.signal_declarations();
        let mut r = String::from_str("impl ");
        r.append(self.class_name.as_str());
        r.append(" {\n");
        r.append("unsafe extern \"C\" fn init(klass: glib_ffi::gpointer, _klass_data: glib_ffi::gpointer) {\n");
        r.append(guard.as_str());
        r.append(register.as_str());
        r.append("{\nlet gobject_class = &mut *(klass as *mut gobject_ffi::GObjectClass);\n");
        r.append("gobject_class.finalize = Some(");
        r.append(self.instance_name_ffi.as_str());
        r.append("::finalize);\n}\n{\n#[allow(unused_variables)]\nlet klass = &mut *(klass as *mut ");
        r.append(self.class_name.as_str());
        r.append(");\n");
        r.append(assignments.as_str());
        r.append("}\n{\n");
        r.append(decls.as_str());
        r.append("}\nPRIV.parent_class = gobject_ffi::g_type_class_peek_parent(klass) as *const ");
        r.append(self.parent_class_ffi.as_str());
        r.append(";\n}\n}\n");
        r
    }

    fn imp_exports(&self) -> (r: String)
        requires
            self.abi_ready(),
        ensures
            r@ == imp_exports_text(self),
    {
        let guard = glib_callback_guard();
        let externs = self.imp_extern_methods();
        let mut r = String::from_str("#[no_mangle]\npub unsafe extern \"C\" fn ");
        r.append(self.lower_name.as_str());
        r.append("_new() -> *mut ");
        r.append(self.instance_name_ffi.as_str());
        r.append(" {\n");
        r.append(guard.as_str());
        r.append("let this = gobject_ffi::g_object_newv(");
        r.append(self.lower_name.as_str());
        r.append("_get_type(), 0, ptr::null_mut());\nthis as *mut ");
        r.append(self.instance_name_ffi.as_str());
        r.append("\n}\n");
        r.append(externs.as_str());
        r.append("#[no_mangle]\npub unsafe extern \"C\" fn ");
        r.append(self.lower_name.as_str());
        r.append("_get_type() -> glib_ffi::GType {\n");
        r.append(guard.as_str());
        r.append("use std::sync::{Once, ONCE_INIT};\nuse std::u16;\n");
        r.append("static mut TYPE: glib_ffi::GType = gobject_ffi::G_TYPE_INVALID;\n");
        r.append("static ONCE: Once = ONCE_INIT;\nONCE.call_once(|| {\n");
        r.append("let class_size = mem::size_of::<");
        r.append(self.class_name.as_str());
        r.append(">();\nassert!(class_size <= u16::MAX as usize);\n");
        r.append("let instance_size = mem::size_of::<");
        r.append(self.instance_name_ffi.as_str());
        r.append(">();\nassert!(instance_size <= u16::MAX as usize);\n");
        r.append("TYPE = gobject_ffi::g_type_register_static_simple(<");
        r.append(self.parent_instance.as_str());
        r.append(" as glib::StaticType>::static_type().to_glib(), b\"");
        r.append(self.instance_name.as_str());
        r.append("\\0\" as *const u8 as *const i8, class_size as u32, Some(");
        r.append(self.class_name.as_str());
        r.append("::init), instance_size as u32, Some(");
        r.append(self.instance_name_ffi.as_str());
        r.append("::init), gobject_ffi::GTypeFlags::empty());\n});\nTYPE\n}\n}\n");
        r
    }

    fn module_tail(&self) -> (r: String)
        requires
            self.abi_ready(),
        ensures
            r@ == module_tail_text(self),
    {
        let trait_fns = self.slot_trait_fns();
        let trait_impls = self.slot_trait_impls();
        let sig_trampolines = self.signal_trampolines();
        let mut r = String::from_str("impl ");
        r.append(self.instance_name.as_str());
        r.append(" {\npub fn new() -> ");
        r.append(self.instance_name.as_str());
        r.append(" {\nunsafe { from_glib_full(imp::");
        r.append(self.lower_name.as_str());
        r.append("_new()) }\n}\n}\npub trait ");
        r.append(self.instance_ext.as_str());
        r.append(" {\n");
        r.append(trait_fns.as_str());
        r.append("}\nimpl<O: IsA<");
        r.append(self.instance_name.as_str());
        r.append("> + IsA<glib::object::Object> + glib::object::ObjectExt> ");
        r.append(self.instance_ext.as_str());
        r.append(" for O {\n");
        r.append(trait_impls.as_str());
        r.append("}\n");
        r.append(sig_trampolines.as_str());
        r.append("}\npub use self::");
        r.append(self.module_name.as_str());
        r.append("::*;\n");
        r
    }
    /// The generated module of the class.
    pub fn gen_boilerplate(&self) -> (r: String)
        requires
            self.abi_ready(),
        ensures
            r@ == boilerplate_text(self),
    {
        let mut r = self.module_head();
        let structs = self.imp_structs();
        r.append(structs.as_str());
        let instance = self.imp_instance();
        r.append(instance.as_str());
        let class_init = self.imp_class_init();
        r.append(class_init.as_str());
        let exports = self.imp_exports();
        r.append(exports.as_str());
        let tail = self.module_tail();
        r.append(tail.as_str());
        r
    }

    /// The generated code of the class.
    pub fn gen_class(&self) -> (r: String)
        requires
            self.abi_ready(),
        ensures
            r@ == boilerplate_text(self),
    {
        self.gen_boilerplate()
    }
}

/// The slots among `ss` that the class struct holds: the virtual methods and
/// the signals, in declaration order.
pub open spec fn vtable_slot_views<'a>(ss: Seq<SlotView<'a>>) -> Seq<SlotView<'a>>
    decreases ss.len(),
{
    if ss.len() == 0 {
        Seq::empty()
    } else if ss.last().kind == SlotKind::Method {
        vtable_slot_views(ss.drop_last())
    } else {
        vtable_slot_views(ss.drop_last()).push(ss.last())
    }
}

/// One slot field for each of `vs`, in order.
pub open spec fn slot_fields_text(cx: &ClassContext, vs: Seq<SlotView>) -> Seq<char>
    decreases vs.len(),
{
    if vs.len() == 0 {
        Seq::empty()
    } else {
        slot_fields_text(cx, vs.drop_last()) + field_text(cx, vs.last().sig)
    }
}

proof fn lemma_slot_fields(cx: &ClassContext, ss: Seq<SlotView>)
    ensures
        slots_text(cx, SlotForm::Field, ss) == slot_fields_text(cx, vtable_slot_views(ss)),
    decreases ss.len(),
{
    if ss.len() > 0 {
        lemma_slot_fields(cx, ss.drop_last());
        if ss.last().kind == SlotKind::Method {
            assert(slots_text(cx, SlotForm::Field, ss) =~= slots_text(cx, SlotForm::Field, ss.drop_last()));
        } else {
            let vs = vtable_slot_views(ss);
            assert(vs.drop_last() =~= vtable_slot_views(ss.drop_last()));
        }
    }
}

proof fn lemma_vtable_slot_views<'a>(owner: &'a String, ss: Seq<SlotView<'a>>)
    ensures
        vtable_slots(owner, ss).len() == vtable_slot_views(ss).len(),
        forall|i: int| 0 <= i < vtable_slot_views(ss).len() ==> #[trigger] vtable_slots(owner, ss)[i] == (LayoutSlot {
            owner: owner,
            name: vtable_slot_views(ss)[i].sig.name,
            kind: vtable_slot_views(ss)[i].kind,
        }),
    decreases ss.len(),
{
    if ss.len() > 0 {
        lemma_vtable_slot_views(owner, ss.drop_last());
    }
}

/// The class struct that the generated module declares holds, after its
/// parent's class struct, one slot field for each slot of the class's own
/// part of the class-struct layout: as many, in the same order, under the
/// same names. Its instance struct holds the parent's alone (see
/// `imp_structs_text`), so the struct sizes follow the layout's.
pub proof fn lemma_class_struct_follows_layout(cx: &ClassContext)
    ensures
        slots_text(cx, SlotForm::Field, cx.class@.slots) == slot_fields_text(cx, vtable_slot_views(cx.class@.slots)),
        vtable_slot_views(cx.class@.slots).len() == own_slots(cx.class@).len(),
        forall|i: int| 0 <= i < own_slots(cx.class@).len() ==>
            (#[trigger] own_slots(cx.class@)[i]).name == vtable_slot_views(cx.class@.slots)[i].sig.name
            && own_slots(cx.class@)[i].kind == vtable_slot_views(cx.class@.slots)[i].kind,
{
    lemma_slot_fields(cx, cx.class@.slots);
    lemma_vtable_slot_views(cx.class@.name, cx.class@.slots);
}

} // verus!
