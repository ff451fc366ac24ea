//! The names that the generated code uses for one class.
use vstd::prelude::*;
use vstd::string::*;
use crate::glib_utils::{lower_case_instance_name, parent_type_string, parent_type_text, snake_name};
use crate::gen::class_accepted;
use crate::hir::{Class, ClassView, Program};

verus! {

/// The source text of the parent type of `c`: the root object type where it has none.
pub open spec fn parent_text(c: ClassView) -> Seq<char> {
    parent_type_text(c.extends)
}

/// What the code generator needs to know of one class, and the names it derives.
pub struct ClassContext<'ast> {
    pub program: &'ast Program<'ast>,
    pub class: &'ast Class<'ast>,
    pub private_struct_name: String,
    pub module_name: String,
    pub instance_name: String,
    pub instance_name_ffi: String,
    pub class_name: String,
    pub private_class_name: String,
    pub parent_instance: String,
    pub parent_instance_ffi: String,
    pub parent_class_ffi: String,
    pub instance_ext: String,
    /// The snake-case name that prefixes the class's exported functions.
    pub lower_name: String,
}

impl<'ast> ClassContext<'ast> {
    /// The names are those that `new` derives from the class.
    pub open spec fn wf(&self) -> bool {
        let n = self.class.name@;
        &&& self.instance_name@ == n
        &&& self.private_struct_name@ == n + "Priv"@
        &&& self.module_name@ == n + "Mod"@
        &&& self.class_name@ == n + "Class"@
        &&& self.private_class_name@ == n + "ClassPrivate"@
        &&& self.instance_ext@ == n + "Ext"@
        &&& self.instance_name_ffi@ == n + "Ffi"@
        &&& self.parent_instance@ == parent_text(self.class@)
        &&& self.parent_instance_ffi@ == "<"@ + parent_text(self.class@) + " as glib::wrapper::Wrapper>::GlibType"@
        &&& self.parent_class_ffi@ == "<"@ + parent_text(self.class@) + " as glib::wrapper::Wrapper>::GlibClassType"@
        &&& self.lower_name@ == snake_name(n)
    }

    /// Every slot and override of the class can be generated: its types have
    /// ABI mappings wherever it crosses the boundary.
    pub open spec fn abi_ready(&self) -> bool {
        class_accepted(self.class@)
    }

    pub fn new(program: &'ast Program<'ast>, class: &'ast Class<'ast>) -> (r: Self)
        ensures
            r.wf(),
            r.program == program,
            r.class == class,
    {
        let name = class.name.as_str();
        let parent = parent_type_string(class.extends);
        let mut parent_instance_ffi = String::from_str("<");
        parent_instance_ffi.append(parent.as_str());
        parent_instance_ffi.append(" as glib::wrapper::Wrapper>::GlibType");
        let mut parent_class_ffi = String::from_str("<");
        parent_class_ffi.append(parent.as_str());
        parent_class_ffi.append(" as glib::wrapper::Wrapper>::GlibClassType");
        ClassContext {
            program,
            class,
            private_struct_name: container_name(name, "Priv"),
            module_name: container_name(name, "Mod"),
            instance_name: String::from_str(name),
            instance_name_ffi: container_name(name, "Ffi"),
            class_name: container_name(name, "Class"),
            private_class_name: container_name(name, "ClassPrivate"),
            parent_instance: parent,
            parent_instance_ffi,
            parent_class_ffi,
            instance_ext: container_name(name, "Ext"),
            lower_name: lower_case_instance_name(name),
        }
    }

    /// The name of the exported function for `method_name`: `foo_bar_method` for class `FooBar`.
    pub fn exported_fn_name(&self, method_name: &str) -> (r: String)
        ensures
            r@ == self.lower_name@ + "_"@ + method_name@,
    {
        let mut r = self.lower_name.clone();
        r.append("_");
        r.append(method_name);
        r
    }

    /// The name of the class's type-registration function.
    pub fn instance_get_type_fn_name(&self) -> (r: String)
        ensures
            r@ == self.lower_name@ + "_get_type"@,
    {
        let mut r = self.lower_name.clone();
        r.append("_get_type");
        r
    }

    /// The name of the exported constructor.
    pub fn imp_new_fn_name(&self) -> (r: String)
        ensures
            r@ == self.lower_name@ + "_new"@,
    {
        let mut r = self.lower_name.clone();
        r.append("_new");
        r
    }

    /// The name of the exported function through which `method` is called.
    pub fn method_ffi_name(&self, method: &str) -> (r: String)
        ensures
            r@ == self.lower_name@ + "_"@ + method@,
    {
        self.exported_fn_name(method)
    }
}

/// `name` followed by `suffix`, as the generated code names its containers.
fn container_name(name: &str, suffix: &str) -> (r: String)
    ensures
        r@ == name@ + suffix@,
{
    let mut r = String::from_str(name);
    r.append(suffix);
    r
}

} // verus!
