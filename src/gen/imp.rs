//! The class struct's slots, their default handlers and trampolines, the
//! exported functions, and the handling of per-instance private data.
use vstd::prelude::*;
use vstd::string::*;
use crate::gen::class::ClassContext;
use crate::gen::instance_ext::{trait_fn_text, trait_impl_text};
use crate::gen::signals::{signal_decl_text, signal_emit_text, signal_trampoline_text};
use crate::gen::slot_accepted;
use crate::gen::signatures::{sig_marshalable, args_text, glib_type_text, sig_args_text, to_glib_text, ty_string, ty_text, ArgForm};
use crate::glib_utils::{decimal, decimal_text, glib_callback_guard, guard_text};
use crate::hir::{FnSig, Method, SigView, Slot, SlotKind, SlotView};

verus! {

/// The function-pointer field that a virtual method or signal occupies in the class struct.
pub open spec fn field_text(cx: &ClassContext, s: SigView) -> Seq<char> {
    "pub "@ + s.name@ + ": Option<unsafe extern \"C\" fn(this: *mut "@ + cx.instance_name_ffi@ + ", "@
        + sig_args_text(ArgForm::WithGlibTypes, s) + ") -> "@ + glib_type_text(s.output) + ">,\n"@
}

/// A function named `name` with the signature of `s` and the body `body`.
pub open spec fn handler_text(name: Seq<char>, s: SigView, body: Seq<char>) -> Seq<char> {
    "fn "@ + name + "("@ + args_text(ArgForm::Decl, s.inputs) + ") -> "@ + ty_text(s.output) + " "@ + body + "\n"@
}

/// The default handler of a slot. A private method keeps its own name; the
/// others get `_impl` appended. Without a body, a virtual method's or a
/// signal's handler panics with a message that names it.
pub open spec fn default_handler_text(s: SlotView) -> Seq<char> {
    let n = s.sig.name@;
    match s.body {
        Some(b) => if s.kind == SlotKind::Method && !s.public {
            handler_text(n, s.sig, b@)
        } else {
            handler_text(n + "_impl"@, s.sig, b@)
        },
        None => if s.kind == SlotKind::Signal {
            "#[allow(unused_variables)]\n"@ + handler_text(n + "_impl"@, s.sig,
                "{\n    panic!(\"Called default signal handler {} with no implementation\", stringify!("@ + n + "_impl));\n}"@)
        } else {
            handler_text(n + "_impl"@, s.sig,
                "{\n    panic!(\"Called abstract method {} with no implementation\", stringify!("@ + n + "_impl));\n}"@)
        },
    }
}

/// The trampoline installed in a slot: it takes the object system's calling
/// convention, with the receiver typed `recv`, and calls the default handler.
pub open spec fn trampoline_text(cx: &ClassContext, s: SigView, recv: Seq<char>) -> Seq<char> {
    "unsafe extern \"C\" fn "@ + s.name@ + "_slot_trampoline(this: *mut "@ + recv + ", "@
        + sig_args_text(ArgForm::WithGlibTypes, s) + ") -> "@ + glib_type_text(s.output) + " {\n"@
        + guard_text() + "let this = this as *mut "@ + cx.instance_name_ffi@
        + ";\nlet instance: &super::"@ + cx.instance_name@ + " = &from_glib_borrow(this);\n"@
        + to_glib_text(s.output, "instance."@ + s.name@ + "_impl("@ + sig_args_text(ArgForm::FromGlib, s) + ")"@)
        + "\n}\n"@
}

/// The exported function of a public method (it calls the handler) or of a
/// virtual method (it dispatches through the class struct).
pub open spec fn extern_method_text(cx: &ClassContext, s: SlotView) -> Seq<char> {
    let head = "#[no_mangle]\npub unsafe extern \"C\" fn "@ + cx.lower_name@ + "_"@ + s.sig.name@ + "(this: *mut "@
        + cx.instance_name_ffi@ + ", "@ + sig_args_text(ArgForm::WithGlibTypes, s.sig) + ") -> "@
        + glib_type_text(s.sig.output) + " {\n"@ + guard_text();
    if s.kind == SlotKind::VirtualMethod {
        head + "let klass = (*this).get_class();\n(klass."@ + s.sig.name@ + ".as_ref().unwrap())(this, "@
            + sig_args_text(ArgForm::Names, s.sig) + ")\n}\n"@
    } else if s.kind == SlotKind::Method && s.public {
        head + "let instance: &super::"@ + cx.instance_name@ + " = &from_glib_borrow(this);\n"@
            + to_glib_text(s.sig.output, "instance."@ + s.sig.name@ + "_impl("@ + sig_args_text(ArgForm::FromGlib, s.sig) + ")"@)
            + "\n}\n"@
    } else {
        Seq::empty()
    }
}

/// The installation of a slot's trampoline at class initialisation.
pub open spec fn assignment_text(cx: &ClassContext, s: SigView) -> Seq<char> {
    "klass."@ + s.name@ + " = Some("@ + cx.instance_name_ffi@ + "::"@ + s.name@ + "_slot_trampoline);\n"@
}

/// The receiver type of an override's trampoline: the ancestor's instance struct.
pub open spec fn ancestor_instance_text(parent: Seq<char>) -> Seq<char> {
    "<"@ + parent + " as glib::wrapper::Wrapper>::GlibType"@
}

/// The installation of an override into the slot of the ancestor `parent`,
/// through the ancestor's class struct that the class struct begins with.
pub open spec fn override_assignment_text(cx: &ClassContext, parent: Seq<char>, s: SigView) -> Seq<char> {
    "(*(klass as *mut _ as *mut <"@ + parent + " as glib::wrapper::Wrapper>::GlibClassType))."@ + s.name@
        + " = Some("@ + cx.instance_name_ffi@ + "::"@ + s.name@ + "_slot_trampoline);\n"@
}

/// What the generated code holds for one slot.
#[derive(Clone, Copy, Debug, PartialEq, Eq, Structural)]
pub enum SlotForm {
    Field,
    DefaultHandler,
    Trampoline,
    ExternMethod,
    Assignment,
    TraitFn,
    TraitImpl,
    SignalTrampoline,
    SignalDecl,
    SignalEmit,
    SignalIdField,
    SignalIdInit,
}

/// The text of form `f` for the slot `s`.
pub open spec fn slot_piece(cx: &ClassContext, f: SlotForm, s: SlotView) -> Seq<char> {
    let in_vtable = s.kind != SlotKind::Method;
    let signal = s.kind == SlotKind::Signal;
    match f {
        SlotForm::Field => if in_vtable { field_text(cx, s.sig) } else { Seq::empty() },
        SlotForm::DefaultHandler => default_handler_text(s),
        SlotForm::Trampoline => if in_vtable { trampoline_text(cx, s.sig, cx.instance_name_ffi@) } else { Seq::empty() },
        SlotForm::ExternMethod => extern_method_text(cx, s),
        SlotForm::Assignment => if in_vtable { assignment_text(cx, s.sig) } else { Seq::empty() },
        SlotForm::TraitFn => trait_fn_text(s),
        SlotForm::TraitImpl => trait_impl_text(cx, s),
        SlotForm::SignalTrampoline => if signal { signal_trampoline_text(cx, s.sig) } else { Seq::empty() },
        SlotForm::SignalDecl => if signal { signal_decl_text(cx, s.sig) } else { Seq::empty() },
        SlotForm::SignalEmit => if signal { signal_emit_text(s.sig) } else { Seq::empty() },
        SlotForm::SignalIdField => if signal { s.sig.name@ + "_signal_id: u32,\n"@ } else { Seq::empty() },
        SlotForm::SignalIdInit => if signal { s.sig.name@ + "_signal_id: 0,\n"@ } else { Seq::empty() },
    }
}

/// The texts of form `f` of the slots `ss`, in order.
pub open spec fn slots_text(cx: &ClassContext, f: SlotForm, ss: Seq<SlotView>) -> Seq<char>
    decreases ss.len(),
{
    if ss.len() == 0 {
        Seq::empty()
    } else {
        slots_text(cx, f, ss.drop_last()) + slot_piece(cx, f, ss.last())
    }
}

/// The text of form `f` for the override `m` of a method of `parent`. Its
/// handler is named `<name>_impl`, which its trampoline calls.
pub open spec fn override_piece(cx: &ClassContext, f: SlotForm, parent: Seq<char>, m: SlotView) -> Seq<char> {
    match f {
        SlotForm::DefaultHandler => match m.body {
            Some(b) => handler_text(m.sig.name@ + "_impl"@, m.sig, b@),
            None => Seq::empty(),
        },
        SlotForm::Trampoline => trampoline_text(cx, m.sig, ancestor_instance_text(parent)),
        SlotForm::Assignment => override_assignment_text(cx, parent, m.sig),
        _ => Seq::empty(),
    }
}

/// The texts of form `f` for the overrides `ms` of methods of `parent`.
pub open spec fn override_group_text(cx: &ClassContext, f: SlotForm, parent: Seq<char>, ms: Seq<SlotView>) -> Seq<char>
    decreases ms.len(),
{
    if ms.len() == 0 {
        Seq::empty()
    } else {
        override_group_text(cx, f, parent, ms.drop_last()) + override_piece(cx, f, parent, ms.last())
    }
}

/// The texts of form `f` for all overrides in `ovs`, ancestor by ancestor.
pub open spec fn overrides_text(cx: &ClassContext, f: SlotForm, ovs: Seq<crate::hir::OverrideView>) -> Seq<char>
    decreases ovs.len(),
{
    if ovs.len() == 0 {
        Seq::empty()
    } else {
        overrides_text(cx, f, ovs.drop_last()) + override_group_text(cx, f, ovs.last().parent@, ovs.last().methods)
    }
}

impl<'ast> ClassContext<'ast> {
    fn handler(&self, name: &str, sig: &FnSig, body: &str) -> (r: String)
        ensures
            r@ == handler_text(name@, sig@, body@),
    {
        let mut r = String::from_str("fn ");
        r.append(name);
        r.append("(");
        let decl = sig.decl_inputs();
        r.append(decl.as_str());
        r.append(") -> ");
        let out = ty_string(&sig.output);
        r.append(out.as_str());
        r.append(" ");
        r.append(body);
        r.append("\n");
        r
    }

    fn default_handler(&self, kind: SlotKind, public: bool, sig: &FnSig, body: Option<&String>) -> (r: String)
        ensures
            r@ == default_handler_text(SlotView { kind, public, sig: sig@, body }),
    {
        let mut impl_name = sig.name.clone();
        impl_name.append("_impl");
        match body {
            Some(b) => if kind == SlotKind::Method && !public {
                self.handler(sig.name.as_str(), sig, b.as_str())
            } else {
                self.handler(impl_name.as_str(), sig, b.as_str())
            },
            None => {
                let mut text = if kind == SlotKind::Signal {
                    String::from_str("{\n    panic!(\"Called default signal handler {} with no implementation\", stringify!(")
                } else {
                    String::from_str("{\n    panic!(\"Called abstract method {} with no implementation\", stringify!(")
                };
                text.append(sig.name.as_str());
                text.append("_impl));\n}");
                let h = self.handler(impl_name.as_str(), sig, text.as_str());
                if kind == SlotKind::Signal {
                    let mut r = String::from_str("#[allow(unused_variables)]\n");
                    r.append(h.as_str());
                    r
                } else {
                    h
                }
            },
        }
    }

    fn slot_default_handler(&self, s: &Slot) -> (r: String)
        ensures
            r@ == default_handler_text(s@),
    {
        match s {
            Slot::Method(m) => self.default_handler(SlotKind::Method, m.public, &m.sig, Some(m.body)),
            Slot::VirtualMethod(v) => self.default_handler(SlotKind::VirtualMethod, false, &v.sig, v.body),
            Slot::Signal(g) => self.default_handler(SlotKind::Signal, false, &g.sig, g.body),
        }
    }

    fn trampoline(&self, sig: &FnSig, recv: &str) -> (r: String)
        requires
            sig_marshalable(sig@),
        ensures
            r@ == trampoline_text(self, sig@, recv@),
    {
        let mut call = String::from_str("instance.");
        call.append(sig.name.as_str());
        call.append("_impl(");
        let from = sig.input_args_from_glib_types();
        call.append(from.as_str());
        call.append(")");
        let ret = sig.ret_to_glib(call.as_str());
        let mut r = String::from_str("unsafe extern \"C\" fn ");
        r.append(sig.name.as_str());
        r.append("_slot_trampoline(this: *mut ");
        r.append(recv);
        r.append(", ");
        let gargs = sig.input_args_with_glib_types();
        r.append(gargs.as_str());
        r.append(") -> ");
        let gout = sig.output_glib_type();
        r.append(gout.as_str());
        r.append(" {\n");
        let guard = glib_callback_guard();
        r.append(guard.as_str());
        r.append("let this = this as *mut ");
        r.append(self.instance_name_ffi.as_str());
        r.append(";\nlet instance: &super::");
        r.append(self.instance_name.as_str());
        r.append(" = &from_glib_borrow(this);\n");
        r.append(ret.as_str());
        r.append("\n}\n");
        r
    }

    fn extern_method(&self, s: &Slot) -> (r: String)
        requires
            slot_accepted(s@),
        ensures
            r@ == extern_method_text(self, s@),
    {
        let sig = s.sig();
        let kind = s.kind();
        let public = match s {
            Slot::Method(m) => m.public,
            _ => false,
        };
        if !(kind == SlotKind::VirtualMethod || (kind == SlotKind::Method && public)) {
            return String::new();
        }
        let mut head = String::from_str("#[no_mangle]\npub unsafe extern \"C\" fn ");
        head.append(self.lower_name.as_str());
        head.append("_");
        head.append(sig.name.as_str());
        head.append("(this: *mut ");
        head.append(self.instance_name_ffi.as_str());
        head.append(", ");
        let gargs = sig.input_args_with_glib_types();
        head.append(gargs.as_str());
        head.append(") -> ");
        let gout = sig.output_glib_type();
        head.append(gout.as_str());
        head.append(" {\n");
        let guard = glib_callback_guard();
        head.append(guard.as_str());
        if kind == SlotKind::VirtualMethod {
            head.append("let klass = (*this).get_class();\n(klass.");
            head.append(sig.name.as_str());
            head.append(".as_ref().unwrap())(this, ");
            let names = sig.input_arg_names();
            head.append(names.as_str());
            head.append(")\n}\n");
            head
        } else if kind == SlotKind::Method && public {
            let mut call = String::from_str("instance.");
            call.append(sig.name.as_str());
            call.append("_impl(");
            let from = sig.input_args_from_glib_types();
            call.append(from.as_str());
            call.append(")");
            let ret = sig.ret_to_glib(call.as_str());
            head.append("let instance: &super::");
            head.append(self.instance_name.as_str());
            head.append(" = &from_glib_borrow(this);\n");
            head.append(ret.as_str());
            head.append("\n}\n");
            head
        } else {
            String::new()
        }
    }

    fn assignment(&self, sig: &FnSig) -> (r: String)
        ensures
            r@ == assignment_text(self, sig@),
    {
        let mut r = String::from_str("klass.");
        r.append(sig.name.as_str());
        r.append(" = Some(");
        r.append(self.instance_name_ffi.as_str());
        r.append("::");
        r.append(sig.name.as_str());
        r.append("_slot_trampoline);\n");
        r
    }

    fn override_assignment(&self, parent: &str, sig: &FnSig) -> (r: String)
        ensures
            r@ == override_assignment_text(self, parent@, sig@),
    {
        let mut r = String::from_str("(*(klass as *mut _ as *mut <");
        r.append(parent);
        r.append(" as glib::wrapper::Wrapper>::GlibClassType)).");
        r.append(sig.name.as_str());
        r.append(" = Some(");
        r.append(self.instance_name_ffi.as_str());
        r.append("::");
        r.append(sig.name.as_str());
        r.append("_slot_trampoline);\n");
        r
    }

    fn slot_piece(&self, f: SlotForm, s: &Slot) -> (r: String)
        requires
            slot_accepted(s@),
        ensures
            r@ == slot_piece(self, f, s@),
    {
        let kind = s.kind();
        let in_vtable = kind != SlotKind::Method;
        let signal = kind == SlotKind::Signal;
        let sig = s.sig();
        match f {
            SlotForm::Field => if in_vtable {
                let mut r = String::from_str("pub ");
                r.append(sig.name.as_str());
                r.append(": Option<unsafe extern \"C\" fn(this: *mut ");
                r.append(self.instance_name_ffi.as_str());
                r.append(", ");
                let gargs = sig.input_args_with_glib_types();
                r.append(gargs.as_str());
                r.append(") -> ");
                let gout = sig.output_glib_type();
                r.append(gout.as_str());
                r.append(">,\n");
                r
            } else {
                String::new()
            },
            SlotForm::DefaultHandler => self.slot_default_handler(s),
            SlotForm::Trampoline => if in_vtable { self.trampoline(sig, self.instance_name_ffi.as_str()) } else { String::new() },
            SlotForm::ExternMethod => self.extern_method(s),
            SlotForm::Assignment => if in_vtable { self.assignment(sig) } else { String::new() },
            SlotForm::TraitFn => self.slot_trait_fn(s),
            SlotForm::TraitImpl => self.slot_trait_impl(s),
            SlotForm::SignalTrampoline => if signal { self.signal_trampoline(sig) } else { String::new() },
            SlotForm::SignalDecl => if signal { self.signal_declaration(sig) } else { String::new() },
            SlotForm::SignalEmit => if signal { self.signal_emit_method(sig) } else { String::new() },
            SlotForm::SignalIdField => if signal {
                let mut r = sig.name.clone();
                r.append("_signal_id: u32,\n");
                r
            } else {
                String::new()
            },
            SlotForm::SignalIdInit => if signal {
                let mut r = sig.name.clone();
                r.append("_signal_id: 0,\n");
                r
            } else {
                String::new()
            },
        }
    }

    /// The texts of form `f` of all the class's slots, in declaration order.
    pub fn emit_slots(&self, f: SlotForm) -> (r: String)
        requires
            self.abi_ready(),
        ensures
            r@ == slots_text(self, f, self.class@.slots),
    {
        let ghost ss = self.class@.slots;
        let mut r = String::new();
        let mut i: usize = 0;
        while i < self.class.slots.len()
            invariant
                ss == self.class@.slots,
                self.abi_ready(),
                i <= ss.len(),
                r@ == slots_text(self, f, ss.subrange(0, i as int)),
            decreases self.class.slots.len() - i,
        {
            proof {
                assert(ss.subrange(0, i + 1).drop_last() =~= ss.subrange(0, i as int));
            }
            proof {
                assert(self.class.slots@[i as int]@ == ss[i as int]);
            }
            let piece = self.slot_piece(f, &self.class.slots[i]);
            r.append(piece.as_str());
            i += 1;
        }
        proof {
            assert(ss.subrange(0, i as int) =~= ss);
        }
        r
    }

    fn override_piece(&self, f: SlotForm, parent: &str, m: &Method) -> (r: String)
        requires
            sig_marshalable(m.sig@),
        ensures
            r@ == override_piece(self, f, parent@, m@),
    {
        match f {
            SlotForm::DefaultHandler => {
                let mut impl_name = m.sig.name.clone();
                impl_name.append("_impl");
                self.handler(impl_name.as_str(), &m.sig, m.body.as_str())
            },
            SlotForm::Trampoline => {
                let mut recv = String::from_str("<");
                recv.append(parent);
                recv.append(" as glib::wrapper::Wrapper>::GlibType");
                self.trampoline(&m.sig, recv.as_str())
            },
            SlotForm::Assignment => self.override_assignment(parent, &m.sig),
            _ => String::new(),
        }
    }

    /// The texts of form `f` for all the class's overrides, ancestor by ancestor.
    pub fn emit_overrides(&self, f: SlotForm) -> (r: String)
        requires
            self.abi_ready(),
        ensures
            r@ == overrides_text(self, f, self.class@.overrides),
    {
        let ghost ovs = self.class@.overrides;
        let mut r = String::new();
        let mut i: usize = 0;
        while i < self.class.overrides.len()
            invariant
                ovs == self.class@.overrides,
                self.abi_ready(),
                i <= ovs.len(),
                r@ == overrides_text(self, f, ovs.subrange(0, i as int)),
            decreases self.class.overrides.len() - i,
        {
            proof {
                assert(ovs.subrange(0, i + 1).drop_last() =~= ovs.subrange(0, i as int));
            }
            let o = &self.class.overrides[i];
            let ghost ms = ovs[i as int].methods;
            let mut part = String::new();
            let mut j: usize = 0;
            while j < o.methods.len()
                invariant
                    o@ == ovs[i as int],
                    ms == o@.methods,
                    i < ovs.len(),
                    ovs == self.class@.overrides,
                    self.abi_ready(),
                    j <= ms.len(),
                    part@ == override_group_text(self, f, o.parent@, ms.subrange(0, j as int)),
                decreases o.methods.len() - j,
            {
                proof {
                    assert(ms.subrange(0, j + 1).drop_last() =~= ms.subrange(0, j as int));
                }
                proof {
                    assert(o.methods@[j as int]@ == ms[j as int]);
                    assert(sig_marshalable(ovs[i as int].methods[j as int].sig));
                }
                let piece = self.override_piece(f, o.parent.as_str(), &o.methods[j]);
                part.append(piece.as_str());
                j += 1;
            }
            proof {
                assert(ms.subrange(0, j as int) =~= ms);
            }
            r.append(part.as_str());
            i += 1;
        }
        proof {
            assert(ovs.subrange(0, i as int) =~= ovs);
        }
        r
    }
}

pub open spec fn register_private_text(cx: &ClassContext) -> Seq<char> {
    "gobject_ffi::g_type_class_add_private(klass, mem::size_of::<Option<"@
        + cx.private_struct_name@ + ">>());\n"@
}

pub open spec fn get_priv_text(cx: &ClassContext) -> Seq<char> {
    "#[allow(dead_code)]\nfn get_priv(&self) -> &"@ + cx.private_struct_name@
        + " {\nunsafe {\nlet _private = gobject_ffi::g_type_instance_get_private(<Self as ToGlibPtr<*mut "@
        + cx.instance_name_ffi@ + ">>::to_glib_none(self).0 as *mut gobject_ffi::GTypeInstance, "@
        + cx.lower_name@ + "_get_type()) as *const Option<"@ + cx.private_struct_name@
        + ">;\n(&*_private).as_ref().unwrap()\n}\n}\n"@
}

pub open spec fn init_priv_text(cx: &ClassContext) -> Seq<char> {
    "let _private = gobject_ffi::g_type_instance_get_private(obj, "@ + cx.lower_name@
        + "_get_type()) as *mut Option<"@ + cx.private_struct_name@
        + ">;\nptr::write(_private, Some(<"@ + cx.private_struct_name@ + " as Default>::default()));\n"@
}

pub open spec fn free_private_text(cx: &ClassContext) -> Seq<char> {
    "let _private = gobject_ffi::g_type_instance_get_private(obj as *mut gobject_ffi::GTypeInstance, "@
        + cx.lower_name@ + "_get_type()) as *mut Option<"@ + cx.private_struct_name@
        + ">;\nlet _ = (*_private).take();\n"@
}

/// The lines of the enumeration that reserves one id per property, from 1.
pub open spec fn property_lines(ps: Seq<crate::hir::Property>) -> Seq<char>
    decreases ps.len(),
{
    if ps.len() == 0 {
        Seq::empty()
    } else {
        property_lines(ps.drop_last()) + ps.last().name@ + " = "@ + decimal_text(ps.len()) + ",\n"@
    }
}

/// The enumeration of the class's properties; nothing where it has none.
pub open spec fn properties_enum_text(ps: Seq<crate::hir::Property>) -> Seq<char> {
    if ps.len() == 0 {
        Seq::empty()
    } else {
        "#[repr(u32)]\nenum Properties {\n"@ + property_lines(ps) + "}\n"@
    }
}

impl<'ast> ClassContext<'ast> {
    /// The class struct's slot fields, one per virtual method or signal.
    pub fn slots(&self) -> (r: String)
        requires
            self.abi_ready(),
        ensures
            r@ == slots_text(self, SlotForm::Field, self.class@.slots),
    {
        self.emit_slots(SlotForm::Field)
    }

    /// The default handlers of the slots, then the bodies of the overrides.
    pub fn imp_slot_default_handlers(&self) -> (r: String)
        requires
            self.abi_ready(),
        ensures
            r@ == slots_text(self, SlotForm::DefaultHandler, self.class@.slots)
                + overrides_text(self, SlotForm::DefaultHandler, self.class@.overrides),
    {
        let mut r = self.emit_slots(SlotForm::DefaultHandler);
        let o = self.emit_overrides(SlotForm::DefaultHandler);
        r.append(o.as_str());
        r
    }

    /// The trampolines of the slots, then those of the overrides.
    pub fn instance_slot_trampolines(&self) -> (r: String)
        requires
            self.abi_ready(),
        ensures
            r@ == slots_text(self, SlotForm::Trampoline, self.class@.slots)
                + overrides_text(self, SlotForm::Trampoline, self.class@.overrides),
    {
        let mut r = self.emit_slots(SlotForm::Trampoline);
        let o = self.emit_overrides(SlotForm::Trampoline);
        r.append(o.as_str());
        r
    }

    /// The exported functions of the public and virtual methods.
    pub fn imp_extern_methods(&self) -> (r: String)
        requires
            self.abi_ready(),
        ensures
            r@ == slots_text(self, SlotForm::ExternMethod, self.class@.slots),
    {
        self.emit_slots(SlotForm::ExternMethod)
    }

    /// The installation of every trampoline at class initialisation.
    pub fn slot_assignments(&self) -> (r: String)
        requires
            self.abi_ready(),
        ensures
            r@ == slots_text(self, SlotForm::Assignment, self.class@.slots)
                + overrides_text(self, SlotForm::Assignment, self.class@.overrides),
    {
        let mut r = self.emit_slots(SlotForm::Assignment);
        let o = self.emit_overrides(SlotForm::Assignment);
        r.append(o.as_str());
        r
    }

    /// Reserves the per-instance private block at class initialisation.
    pub fn register_instance_private(&self) -> (r: String)
        ensures
            r@ == register_private_text(self),
    {
        let mut r = String::from_str("gobject_ffi::g_type_class_add_private(klass, mem::size_of::<Option<");
        r.append(self.private_struct_name.as_str());
        r.append(">>());\n");
        r
    }

    /// The accessor of an instance's private block.
    pub fn get_priv_fn(&self) -> (r: String)
        ensures
            r@ == get_priv_text(self),
    {
        let mut r = String::from_str("#[allow(dead_code)]\nfn get_priv(&self) -> &");
        r.append(self.private_struct_name.as_str());
        r.append(" {\nunsafe {\nlet _private = gobject_ffi::g_type_instance_get_private(<Self as ToGlibPtr<*mut ");
        r.append(self.instance_name_ffi.as_str());
        r.append(">>::to_glib_none(self).0 as *mut gobject_ffi::GTypeInstance, ");
        r.append(self.lower_name.as_str());
        r.append("_get_type()) as *const Option<");
        r.append(self.private_struct_name.as_str());
        r.append(">;\n(&*_private).as_ref().unwrap()\n}\n}\n");
        r
    }

    /// Construction: the private block is written in place with its default
    /// value, never read from the zero-filled memory it replaces.
    pub fn init_priv_with_default(&self) -> (r: String)
        ensures
            r@ == init_priv_text(self),
    {
        let mut r = String::from_str("let _private = gobject_ffi::g_type_instance_get_private(obj, ");
        r.append(self.lower_name.as_str());
        r.append("_get_type()) as *mut Option<");
        r.append(self.private_struct_name.as_str());
        r.append(">;\nptr::write(_private, Some(<");
        r.append(self.private_struct_name.as_str());
        r.append(" as Default>::default()));\n");
        r
    }

    /// Destruction: the private block is dropped once, by taking it out.
    pub fn free_instance_private(&self) -> (r: String)
        ensures
            r@ == free_private_text(self),
    {
        let mut r = String::from_str("let _private = gobject_ffi::g_type_instance_get_private(obj as *mut gobject_ffi::GTypeInstance, ");
        r.append(self.lower_name.as_str());
        r.append("_get_type()) as *mut Option<");
        r.append(self.private_struct_name.as_str());
        r.append(">;\nlet _ = (*_private).take();\n");
        r
    }

    /// The enumeration that reserves an id for each property.
    pub fn properties_enum(&self) -> (r: String)
        ensures
            r@ == properties_enum_text(self.class.properties@),
    {
        let ps = &self.class.properties;
        if ps.len() == 0 {
            return String::new();
        }
        let mut lines = String::new();
        let mut i: usize = 0;
        while i < ps.len()
            invariant
                i <= ps@.len(),
                lines@ == property_lines(ps@.subrange(0, i as int)),
            decreases ps.len() - i,
        {
            proof {
                assert(ps@.subrange(0, i + 1).drop_last() =~= ps@.subrange(0, i as int));
            }
            lines.append(ps[i].name.as_str());
            lines.append(" = ");
            let n = decimal((i + 1) as u64);
            lines.append(n.as_str());
            lines.append(",\n");
            i += 1;
        }
        proof {
            assert(ps@.subrange(0, i as int) =~= ps@);
        }
        let mut r = String::from_str("#[repr(u32)]\nenum Properties {\n");
        r.append(lines.as_str());
        r.append("}\n");
        r
    }
}

} // verus!
