//! Interfaces: their marker struct and vtable struct. Their slots, signals
//! and properties are not generated yet.
use vstd::prelude::*;
use vstd::string::*;
use crate::hir::{Interface, Program};

verus! {

pub struct InterfaceContext<'ast> {
    pub program: &'ast Program<'ast>,
    pub iface: &'ast Interface<'ast>,
}

/// The generated module of the interface called `name`.
pub open spec fn interface_text(name: Seq<char>) -> Seq<char> {
    "pub mod "@ + name + "Mod {\n#![allow(non_snake_case)]\nextern crate glib_sys as glib_ffi;\n"@
        + "extern crate gobject_sys as gobject_ffi;\nextern crate libc;\npub mod imp {\n"@
        + "use super::glib_ffi;\nuse super::gobject_ffi;\nuse super::libc;\n#[repr(C)]\npub struct "@
        + name + "(libc::c_void);\n#[repr(C)]\npub struct "@ + name
        + "Iface {\npub parent_iface: gobject_ffi::GTypeInterface,\n}\n}\n}\n"@
}

impl<'ast> InterfaceContext<'ast> {
    pub fn new(program: &'ast Program<'ast>, iface: &'ast Interface<'ast>) -> (r: Self)
        ensures
            r.program == program,
            r.iface == iface,
    {
        InterfaceContext { program, iface }
    }

    /// The generated code of the interface.
    pub fn gen_interface(&self) -> (r: String)
        ensures
            r@ == interface_text(self.iface.name@),
    {
        self.gen_boilerplate()
    }

    fn gen_boilerplate(&self) -> (r: String)
        ensures
            r@ == interface_text(self.iface.name@),
    {
        let name = self.iface.name.as_str();
        let mut r = String::from_str("pub mod ");
        r.append(name);
        r.append("Mod {\n#![allow(non_snake_case)]\nextern crate glib_sys as glib_ffi;\n");
        r.append("extern crate gobject_sys as gobject_ffi;\nextern crate libc;\npub mod imp {\n");
        r.append("use super::glib_ffi;\nuse super::gobject_ffi;\nuse super::libc;\n#[repr(C)]\npub struct ");
        r.append(name);
        r.append("(libc::c_void);\n#[repr(C)]\npub struct ");
        r.append(name);
        r.append("Iface {\npub parent_iface: gobject_ffi::GTypeInterface,\n}\n}\n}\n");
        r
    }
}

} // verus!
