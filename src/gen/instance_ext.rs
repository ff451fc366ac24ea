//! The public extension trait through which users call a class's methods and
//! connect to its signals.
use vstd::prelude::*;
use vstd::string::*;
use crate::gen::class::ClassContext;
use crate::gen::signatures::{args_text, from_glib_text, sig_args_text, ty_string, ty_text, ArgForm};
use crate::gen::imp::{slots_text, SlotForm};
use crate::hir::{FnSig, SigView, SlotKind, SlotView, Slot};

verus! {

/// The trait declaration for a slot: a method for a public method or a
/// virtual method, a `connect_` method for a signal, nothing for a private method.
pub open spec fn trait_fn_text(s: SlotView) -> Seq<char> {
    if s.kind == SlotKind::Signal {
        connect_head_text(s.sig) + ";\n"@
    } else if s.kind == SlotKind::VirtualMethod || s.public {
        "fn "@ + s.sig.name@ + "("@ + args_text(ArgForm::Decl, s.sig.inputs) + ") -> "@ + ty_text(s.sig.output) + ";\n"@
    } else {
        Seq::empty()
    }
}

/// The head of the `connect_` method of a signal.
pub open spec fn connect_head_text(s: SigView) -> Seq<char> {
    "fn connect_"@ + s.name@ + "<F: Fn(&Self, "@ + sig_args_text(ArgForm::Types, s) + ") -> "@
        + ty_text(s.output) + " + 'static>(&self, f: F) -> glib::SignalHandlerId"@
}

/// The trait implementation for a slot: a method that calls the exported
/// function, or a `connect_` method that boxes the closure behind an opaque
/// pointer and connects it through the signal's handler trampoline.
pub open spec fn trait_impl_text(cx: &ClassContext, s: SlotView) -> Seq<char> {
    if s.kind == SlotKind::Signal {
        connect_head_text(s.sig) + " {\nunsafe {\nlet f: Box<Box<Fn(&Self, "@ + sig_args_text(ArgForm::Types, s.sig)
            + ") -> "@ + ty_text(s.sig.output)
            + " + 'static>> = Box::new(Box::new(f));\nglib::signal::connect(self.to_glib_none().0, \""@
            + s.sig.name@ + "\", mem::transmute("@ + s.sig.name@
            + "_signal_handler_trampoline::<Self> as usize), Box::into_raw(f) as *mut _)\n}\n}\n"@
    } else if s.kind == SlotKind::VirtualMethod || s.public {
        "fn "@ + s.sig.name@ + "("@ + args_text(ArgForm::Decl, s.sig.inputs) + ") -> "@ + ty_text(s.sig.output)
            + " {\n"@
            + from_glib_text(s.sig.output, "unsafe { imp::"@ + cx.lower_name@ + "_"@ + s.sig.name@
                + "(self.to_glib_none().0, "@ + sig_args_text(ArgForm::ToGlib, s.sig) + ") }"@)
            + "\n}\n"@
    } else {
        Seq::empty()
    }
}

impl<'ast> ClassContext<'ast> {
    fn connect_head(&self, sig: &FnSig) -> (r: String)
        ensures
            r@ == connect_head_text(sig@),
    {
        let mut r = String::from_str("fn connect_");
        r.append(sig.name.as_str());
        r.append("<F: Fn(&Self, ");
        let types = sig.input_arg_types();
        r.append(types.as_str());
        r.append(") -> ");
        let out = ty_string(&sig.output);
        r.append(out.as_str());
        r.append(" + 'static>(&self, f: F) -> glib::SignalHandlerId");
        r
    }

    pub fn slot_trait_fn(&self, s: &Slot) -> (r: String)
        ensures
            r@ == trait_fn_text(s@),
    {
        let kind = s.kind();
        let sig = s.sig();
        let public = match s {
            Slot::Method(m) => m.public,
            _ => false,
        };
        if kind == SlotKind::Signal {
            let mut r = self.connect_head(sig);
            r.append(";\n");
            r
        } else if kind == SlotKind::VirtualMethod || public {
            let mut r = String::from_str("fn ");
            r.append(sig.name.as_str());
            r.append("(");
            let decl = sig.decl_inputs();
            r.append(decl.as_str());
            r.append(") -> ");
            let out = ty_string(&sig.output);
            r.append(out.as_str());
            r.append(";\n");
            r
        } else {
            String::new()
        }
    }

    pub fn slot_trait_impl(&self, s: &Slot) -> (r: String)
        ensures
            r@ == trait_impl_text(self, s@),
    {
        let kind = s.kind();
        let sig = s.sig();
        let public = match s {
            Slot::Method(m) => m.public,
            _ => false,
        };
        if kind == SlotKind::Signal {
            let mut r = self.connect_head(sig);
            r.append(" {\nunsafe {\nlet f: Box<Box<Fn(&Self, ");
            let types = sig.input_arg_types();
            r.append(types.as_str());
            r.append(") -> ");
            let out = ty_string(&sig.output);
            r.append(out.as_str());
            r.append(" + 'static>> = Box::new(Box::new(f));\nglib::signal::connect(self.to_glib_none().0, \"");
            r.append(sig.name.as_str());
            r.append("\", mem::transmute(");
            r.append(sig.name.as_str());
            r.append("_signal_handler_trampoline::<Self> as usize), Box::into_raw(f) as *mut _)\n}\n}\n");
            r
        } else if kind == SlotKind::VirtualMethod || public {
            let mut call = String::from_str("unsafe { imp::");
            call.append(self.lower_name.as_str());
            call.append("_");
            call.append(sig.name.as_str());
            call.append("(self.to_glib_none().0, ");
            let args = sig.input_args_to_glib_types();
            call.append(args.as_str());
            call.append(") }");
            let value = sig.ret_from_glib_fn(call.as_str());
            let mut r = String::from_str("fn ");
            r.append(sig.name.as_str());
            r.append("(");
            let decl = sig.decl_inputs();
            r.append(decl.as_str());
            r.append(") -> ");
            let out = ty_string(&sig.output);
            r.append(out.as_str());
            r.append(" {\n");
            r.append(value.as_str());
            r.append("\n}\n");
            r
        } else {
            String::new()
        }
    }
}

impl<'ast> ClassContext<'ast> {
    /// The declarations of the extension trait.
    pub fn slot_trait_fns(&self) -> (r: String)
        requires
            self.abi_ready(),
        ensures
            r@ == slots_text(self, SlotForm::TraitFn, self.class@.slots),
    {
        self.emit_slots(SlotForm::TraitFn)
    }

    /// The implementations of the extension trait.
    pub fn slot_trait_impls(&self) -> (r: String)
        requires
            self.abi_ready(),
        ensures
            r@ == slots_text(self, SlotForm::TraitImpl, self.class@.slots),
    {
        self.emit_slots(SlotForm::TraitImpl)
    }
}

} // verus!
