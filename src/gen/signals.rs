//! Signal registration, emission and connection.
use vstd::prelude::*;
use vstd::string::*;
use crate::gen::class::ClassContext;
use crate::gen::signatures::{sig_marshalable, args_from, args_text, gtype_text, sig_args_text, glib_type_text, to_glib_text, ty_text, ArgForm};
use crate::glib_utils::{decimal, decimal_text, glib_callback_guard, guard_text};
use crate::gen::imp::{slots_text, SlotForm};
use crate::hir::{FnSig, SigView, Signal, Slot, SlotKind, SlotView, Ty};

verus! {

/// The handler trampoline that a connected closure of signal `s` is called through.
pub open spec fn signal_trampoline_text(cx: &ClassContext, s: SigView) -> Seq<char> {
    "unsafe extern \"C\" fn "@ + s.name@ + "_signal_handler_trampoline<P>(this: *mut imp::"@
        + cx.instance_name_ffi@ + ", "@ + sig_args_text(ArgForm::WithGlibTypes, s)
        + "f: glib_ffi::gpointer) -> "@ + glib_type_text(s.output) + "\nwhere\n    P: IsA<"@
        + cx.instance_name@ + ">,\n{\n"@ + guard_text() + "let f: &&(Fn(&P, "@
        + sig_args_text(ArgForm::Types, s) + ") -> "@ + ty_text(s.output)
        + " + 'static) = mem::transmute(f);\n"@
        + to_glib_text(s.output, "f(&"@ + cx.instance_name@
            + "::from_glib_borrow(this).downcast_unchecked(), "@ + sig_args_text(ArgForm::FromGlib, s) + ")"@)
        + "\n}\n"@
}

/// The registration of signal `s` at class initialisation: its name, the
/// number of its parameters after the receiver, their runtime type
/// identifiers and that of its return type; the id it gets is kept.
pub open spec fn signal_decl_text(cx: &ClassContext, s: SigView) -> Seq<char> {
    "let param_gtypes = ["@ + sig_args_text(ArgForm::GTypes, s) + "];\nPRIV."@ + s.name@
        + "_signal_id = gobject_sys::g_signal_newv(b\""@ + s.name@
        + "\\0\" as *const u8 as *const i8, "@ + cx.lower_name@
        + "_get_type(), gobject_sys::G_SIGNAL_RUN_FIRST, ptr::null_mut(), None, ptr::null_mut(), None, "@
        + gtype_text(s.output) + ", "@ + decimal_text(args_from(s.inputs, 1).len())
        + ", mut_override(param_gtypes.as_ptr()));\n"@
}

/// The method that emits signal `s`: its arguments boxed in generic values,
/// its return value converted back where it has one.
pub open spec fn signal_emit_text(s: SigView) -> Seq<char> {
    "#[allow(unused)]\nfn emit_"@ + s.name@ + "("@ + args_text(ArgForm::Decl, s.inputs) + ") -> "@
        + ty_text(s.output) + " {\nlet params: &[glib::Value] = &[\n"@
        + args_text(ArgForm::ToValues, s.inputs)
        + "\n];\nunsafe {\nlet mut ret = glib::Value::uninitialized();\n"@
        + (if s.output is Unit {
            Seq::empty()
        } else {
            "gobject_sys::g_value_init(ret.to_glib_none_mut().0, "@ + gtype_text(s.output) + ");\n"@
        })
        + "gobject_sys::g_signal_emitv(mut_override(params.as_ptr()) as *mut gobject_sys::GValue, PRIV."@
        + s.name@ + "_signal_id, 0, ret.to_glib_none_mut().0);\n"@
        + (if s.output is Unit {
            "()"@
        } else {
            "if ret.type_() == Type::Invalid {\nunreachable!();\n} else {\nret.get().unwrap()\n}"@
        })
        + "\n}\n}\n"@
}

impl<'ast> ClassContext<'ast> {
    pub fn signal_trampoline(&self, sig: &FnSig) -> (r: String)
        requires
            sig_marshalable(sig@),
        ensures
            r@ == signal_trampoline_text(self, sig@),
    {
        let mut inner = String::from_str("f(&");
        inner.append(self.instance_name.as_str());
        inner.append("::from_glib_borrow(this).downcast_unchecked(), ");
        let from = sig.input_args_from_glib_types();
        inner.append(from.as_str());
        inner.append(")");
        let ret = sig.ret_to_glib(inner.as_str());
        let mut r = String::from_str("unsafe extern \"C\" fn ");
        r.append(sig.name.as_str());
        r.append("_signal_handler_trampoline<P>(this: *mut imp::");
        r.append(self.instance_name_ffi.as_str());
        r.append(", ");
        let gargs = sig.input_args_with_glib_types();
        r.append(gargs.as_str());
        r.append("f: glib_ffi::gpointer) -> ");
        let gout = sig.output_glib_type();
        r.append(gout.as_str());
        r.append("\nwhere\n    P: IsA<");
        r.append(self.instance_name.as_str());
        r.append(">,\n{\n");
        let guard = glib_callback_guard();
        r.append(guard.as_str());
        r.append("let f: &&(Fn(&P, ");
        let types = sig.input_arg_types();
        r.append(types.as_str());
        r.append(") -> ");
        let out = crate::gen::signatures::ty_string(&sig.output);
        r.append(out.as_str());
        r.append(" + 'static) = mem::transmute(f);\n");
        r.append(ret.as_str());
        r.append("\n}\n");
        r
    }

    pub fn signal_declaration(&self, sig: &FnSig) -> (r: String)
        ensures
            r@ == signal_decl_text(self, sig@),
    {
        let mut r = String::from_str("let param_gtypes = [");
        let gtypes = crate::gen::signatures::args_string_from(ArgForm::GTypes, &sig.inputs, 1);
        r.append(gtypes.as_str());
        r.append("];\nPRIV.");
        r.append(sig.name.as_str());
        r.append("_signal_id = gobject_sys::g_signal_newv(b\"");
        r.append(sig.name.as_str());
        r.append("\\0\" as *const u8 as *const i8, ");
        r.append(self.lower_name.as_str());
        r.append("_get_type(), gobject_sys::G_SIGNAL_RUN_FIRST, ptr::null_mut(), None, ptr::null_mut(), None, ");
        r.append(crate::gen::signatures::gtype_str(&sig.output));
        r.append(", ");
        let n: usize = if sig.inputs.len() >= 1 { sig.inputs.len() - 1 } else { 0 };
        proof {
            assert(args_from(sig@.inputs, 1).len() == n);
        }
        let count = decimal(n as u64);
        r.append(count.as_str());
        r.append(", mut_override(param_gtypes.as_ptr()));\n");
        r
    }

    pub fn signal_emit_method(&self, sig: &FnSig) -> (r: String)
        ensures
            r@ == signal_emit_text(sig@),
    {
        let mut r = String::from_str("#[allow(unused)]\nfn emit_");
        r.append(sig.name.as_str());
        r.append("(");
        let decl = sig.decl_inputs();
        r.append(decl.as_str());
        r.append(") -> ");
        let out = crate::gen::signatures::ty_string(&sig.output);
        r.append(out.as_str());
        r.append(" {\nlet params: &[glib::Value] = &[\n");
        let values = sig.input_args_to_glib_values();
        r.append(values.as_str());
        r.append("\n];\nunsafe {\nlet mut ret = glib::Value::uninitialized();\n");
        let is_unit = match sig.output {
            Ty::Unit => true,
            _ => false,
        };
        let init = if is_unit {
            String::new()
        } else {
            let mut i = String::from_str("gobject_sys::g_value_init(ret.to_glib_none_mut().0, ");
            i.append(crate::gen::signatures::gtype_str(&sig.output));
            i.append(");\n");
            i
        };
        r.append(init.as_str());
        r.append("gobject_sys::g_signal_emitv(mut_override(params.as_ptr()) as *mut gobject_sys::GValue, PRIV.");
        r.append(sig.name.as_str());
        r.append("_signal_id, 0, ret.to_glib_none_mut().0);\n");
        if is_unit {
            r.append("()");
        } else {
            r.append("if ret.type_() == Type::Invalid {\nunreachable!();\n} else {\nret.get().unwrap()\n}");
        }
        r.append("\n}\n}\n");
        r
    }
}

/// From a signal called `foo`, `foo_signal_id`: where its id is kept.
pub fn signal_id_name(signal: &Signal) -> (r: String)
    ensures
        r@ == signal.sig.name@ + "_signal_id"@,
{
    let mut r = signal.sig.name.clone();
    r.append("_signal_id");
    r
}

/// From a signal called `foo`, `foo_signal_handler_trampoline`: the function
/// through which connected closures are called.
pub fn signal_trampoline_name(signal: &Signal) -> (r: String)
    ensures
        r@ == signal.sig.name@ + "_signal_handler_trampoline"@,
{
    let mut r = signal.sig.name.clone();
    r.append("_signal_handler_trampoline");
    r
}

/// From a signal called `foo`, `connect_foo`: the method that connects a closure.
pub fn connect_signalname(signal: &Signal) -> (r: String)
    ensures
        r@ == "connect_"@ + signal.sig.name@,
{
    let mut r = String::from_str("connect_");
    r.append(signal.sig.name.as_str());
    r
}

/// From a signal called `foo`, `emit_foo`: the method that emits it.
pub fn emit_signalname(signal: &Signal) -> (r: String)
    ensures
        r@ == "emit_"@ + signal.sig.name@,
{
    let mut r = String::from_str("emit_");
    r.append(signal.sig.name.as_str());
    r
}

/// The signatures of the signals among the slots `ss`, in order.
pub open spec fn signal_sigs<'a>(ss: Seq<SlotView<'a>>) -> Seq<SigView<'a>>
    decreases ss.len(),
{
    if ss.len() == 0 {
        Seq::empty()
    } else if ss.last().kind == SlotKind::Signal {
        signal_sigs(ss.drop_last()).push(ss.last().sig)
    } else {
        signal_sigs(ss.drop_last())
    }
}

impl<'ast> ClassContext<'ast> {
    /// The handler trampolines of the class's signals.
    pub fn signal_trampolines(&self) -> (r: String)
        requires
            self.abi_ready(),
        ensures
            r@ == slots_text(self, SlotForm::SignalTrampoline, self.class@.slots),
    {
        self.emit_slots(SlotForm::SignalTrampoline)
    }

    /// The registration of the class's signals.
    pub fn signal_declarations(&self) -> (r: String)
        requires
            self.abi_ready(),
        ensures
            r@ == slots_text(self, SlotForm::SignalDecl, self.class@.slots),
    {
        self.emit_slots(SlotForm::SignalDecl)
    }

    /// The emitting methods of the class's signals.
    pub fn signal_emit_methods(&self) -> (r: String)
        requires
            self.abi_ready(),
        ensures
            r@ == slots_text(self, SlotForm::SignalEmit, self.class@.slots),
    {
        self.emit_slots(SlotForm::SignalEmit)
    }

    /// The class's signals, in declaration order.
    pub fn signals(&self) -> (r: Vec<&'ast Signal<'ast>>)
        ensures
            r@.map_values(|g: &Signal<'ast>| g.sig@) == signal_sigs(self.class@.slots),
    {
        let ghost ss = self.class@.slots;
        let mut r: Vec<&'ast Signal<'ast>> = Vec::new();
        let mut i: usize = 0;
        while i < self.class.slots.len()
            invariant
                ss == self.class@.slots,
                i <= ss.len(),
                r@.map_values(|g: &Signal<'ast>| g.sig@) == signal_sigs(ss.subrange(0, i as int)),
            decreases self.class.slots.len() - i,
        {
            proof {
                assert(ss.subrange(0, i + 1).drop_last() =~= ss.subrange(0, i as int));
            }
            let ghost before = r@.map_values(|g: &Signal<'ast>| g.sig@);
            match &self.class.slots[i] {
                Slot::Signal(g) => {
                    r.push(g);
                    proof {
                        assert(r@.map_values(|g: &Signal<'ast>| g.sig@) =~= before.push(g.sig@));
                    }
                },
                _ => {},
            }
            i += 1;
        }
        proof {
            assert(ss.subrange(0, i as int) =~= ss);
        }
        r
    }

    /// The names under which the class's signal ids are kept.
    pub fn signal_id_names(&self) -> (r: Vec<String>)
        ensures
            r@.map_values(|s: String| s@) == signal_sigs(self.class@.slots).map_values(|g: SigView| g.name@ + "_signal_id"@),
    {
        let signals = self.signals();
        let ghost gs = signal_sigs(self.class@.slots);
        let mut r: Vec<String> = Vec::new();
        let mut i: usize = 0;
        while i < signals.len()
            invariant
                signals@.map_values(|g: &Signal<'ast>| g.sig@) == gs,
                i <= signals@.len(),
                r@.map_values(|s: String| s@) =~= gs.subrange(0, i as int).map_values(|g: SigView| g.name@ + "_signal_id"@),
            decreases signals.len() - i,
        {
            let ghost before = r@.map_values(|s: String| s@);
            let n = signal_id_name(signals[i]);
            r.push(n);
            proof {
                assert(signals@[i as int].sig@ == gs[i as int]);
                assert(r@.map_values(|s: String| s@) =~= before.push(gs[i as int].name@ + "_signal_id"@));
                assert(gs.subrange(0, i + 1).map_values(|g: SigView| g.name@ + "_signal_id"@)
                    =~= gs.subrange(0, i as int).map_values(|g: SigView| g.name@ + "_signal_id"@).push(gs[i as int].name@ + "_signal_id"@));
            }
            i += 1;
        }
        proof {
            assert(gs.subrange(0, i as int) =~= gs);
        }
        r
    }
}

} // verus!
