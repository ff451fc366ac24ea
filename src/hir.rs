//! The typed class model: what the object system knows of each class, built
//! from the syntax tree in two passes. It borrows names, bodies and paths
//! from the tree it was built from.
use vstd::prelude::*;
use crate::ast;
use crate::ast::{classes_of, impls_of, interfaces_of};
use crate::errors::{ContextProblem, Error, Result};
use crate::glib_utils::str_eq;

verus! {

/// The integer types of the source language.
#[derive(Clone, Copy, Debug, PartialEq, Eq, Structural)]
pub enum IntTy {
    I8,
    I16,
    I32,
    I64,
    Isize,
    U8,
    U16,
    U32,
    U64,
    Usize,
}

/// A type of a slot's signature, in the restricted vocabulary of the ABI.
pub enum Ty<'ast> {
    Unit,
    Char,
    Bool,
    Borrowed(Box<Ty<'ast>>),
    Integer(IntTy),
    /// Any other path; accepted in the model, never marshaled.
    Owned(&'ast ast::Path),
}

/// One parameter of a slot's signature.
pub enum FnArg<'ast> {
    /// The receiver, `&self`.
    SelfRef,
    Arg { mutbl: bool, name: &'ast String, ty: Ty<'ast> },
}

/// The signature of a method or signal. The first input is always the receiver.
pub struct FnSig<'ast> {
    pub name: &'ast String,
    pub inputs: Vec<FnArg<'ast>>,
    pub output: Ty<'ast>,
}

/// A helper method: callable, never placed in the class struct.
pub struct Method<'ast> {
    pub public: bool,
    pub sig: FnSig<'ast>,
    pub body: &'ast String,
}

/// A virtual method: one slot of the class struct. Without a body it is abstract.
pub struct VirtualMethod<'ast> {
    pub sig: FnSig<'ast>,
    pub body: Option<&'ast String>,
}

/// A signal: one slot of the class struct for its default handler.
pub struct Signal<'ast> {
    pub sig: FnSig<'ast>,
    pub body: Option<&'ast String>,
}

pub enum Slot<'ast> {
    Method(Method<'ast>),
    VirtualMethod(VirtualMethod<'ast>),
    Signal(Signal<'ast>),
}

/// A declared property. Its getter and setter are kept, not yet dispatched.
pub struct Property<'ast> {
    pub name: &'ast String,
    pub decl: &'ast ast::ImplProp,
}

/// The overrides that a class gives for the virtual methods of one ancestor.
pub struct Override<'ast> {
    pub parent: &'ast String,
    pub methods: Vec<Method<'ast>>,
}

pub struct Class<'ast> {
    pub name: &'ast String,
    /// The class derives directly from the root object type.
    pub gobject_parent: bool,
    pub extends: Option<&'ast ast::Path>,
    pub private_fields: Vec<&'ast ast::Field>,
    /// In declaration order, which is the order of the class struct's slots.
    pub slots: Vec<Slot<'ast>>,
    /// One entry per ancestor, in the order of their first override.
    pub overrides: Vec<Override<'ast>>,
    pub properties: Vec<Property<'ast>>,
}

/// The classes of a program, with unique names, in declaration order.
pub struct Classes<'ast> {
    pub items: Vec<Class<'ast>>,
}

pub struct Interface<'ast> {
    pub name: &'ast String,
}

pub struct Program<'ast> {
    pub classes: Classes<'ast>,
    pub interfaces: Vec<Interface<'ast>>,
}

// ---------------------------------------------------------------------------
// Views

/// Which of the three kinds a slot is.
#[derive(Clone, Copy, Debug, PartialEq, Eq, Structural)]
pub enum SlotKind {
    Method,
    VirtualMethod,
    Signal,
}

pub struct SigView<'ast> {
    pub name: &'ast String,
    pub inputs: Seq<FnArg<'ast>>,
    pub output: Ty<'ast>,
}

pub struct SlotView<'ast> {
    pub kind: SlotKind,
    pub public: bool,
    pub sig: SigView<'ast>,
    pub body: Option<&'ast String>,
}

pub struct OverrideView<'ast> {
    pub parent: &'ast String,
    pub methods: Seq<SlotView<'ast>>,
}

pub struct ClassView<'ast> {
    pub name: &'ast String,
    /// The class derives directly from the root object type.
    pub gobject_parent: bool,
    pub extends: Option<&'ast ast::Path>,
    pub private_fields: Seq<ast::Field>,
    pub slots: Seq<SlotView<'ast>>,
    pub overrides: Seq<OverrideView<'ast>>,
    pub properties: Seq<Property<'ast>>,
}

impl<'ast> FnSig<'ast> {
    pub open spec fn view(&self) -> SigView<'ast> {
        SigView { name: self.name, inputs: self.inputs@, output: self.output }
    }
}

impl<'ast> Method<'ast> {
    pub open spec fn view(&self) -> SlotView<'ast> {
        SlotView { kind: SlotKind::Method, public: self.public, sig: self.sig@, body: Some(self.body) }
    }
}

impl<'ast> Slot<'ast> {
    pub open spec fn view(&self) -> SlotView<'ast> {
        match self {
            Slot::Method(m) => m@,
            Slot::VirtualMethod(v) => SlotView {
                kind: SlotKind::VirtualMethod,
                public: false,
                sig: v.sig@,
                body: v.body,
            },
            Slot::Signal(s) => SlotView {
                kind: SlotKind::Signal,
                public: false,
                sig: s.sig@,
                body: s.body,
            },
        }
    }

    pub fn kind(&self) -> (r: SlotKind)
        ensures
            r == self@.kind,
    {
        match self {
            Slot::Method(_) => SlotKind::Method,
            Slot::VirtualMethod(_) => SlotKind::VirtualMethod,
            Slot::Signal(_) => SlotKind::Signal,
        }
    }

    pub fn sig(&self) -> (r: &FnSig<'ast>)
        ensures
            r@ == self@.sig,
    {
        match self {
            Slot::Method(m) => &m.sig,
            Slot::VirtualMethod(v) => &v.sig,
            Slot::Signal(s) => &s.sig,
        }
    }
}

pub open spec fn method_views<'ast>(ms: Seq<Method<'ast>>) -> Seq<SlotView<'ast>> {
    ms.map_values(|m: Method<'ast>| m@)
}

pub open spec fn slot_views<'ast>(ss: Seq<Slot<'ast>>) -> Seq<SlotView<'ast>> {
    ss.map_values(|s: Slot<'ast>| s@)
}

impl<'ast> Override<'ast> {
    pub open spec fn view(&self) -> OverrideView<'ast> {
        OverrideView { parent: self.parent, methods: method_views(self.methods@) }
    }
}

impl<'ast> Class<'ast> {
    pub open spec fn view(&self) -> ClassView<'ast> {
        ClassView {
            name: self.name,
            gobject_parent: self.gobject_parent,
            extends: self.extends,
            private_fields: self.private_fields@.map_values(|f: &'ast ast::Field| *f),
            slots: slot_views(self.slots@),
            overrides: self.overrides@.map_values(|o: Override<'ast>| o@),
            properties: self.properties@,
        }
    }
}

impl<'ast> Classes<'ast> {
    pub open spec fn view(&self) -> Seq<ClassView<'ast>> {
        self.items@.map_values(|c: Class<'ast>| c@)
    }
}

// ---------------------------------------------------------------------------
// The type mapper

pub open spec fn int_ty_of(s: Seq<char>) -> Option<IntTy> {
    if s == "i8"@ {
        Some(IntTy::I8)
    } else if s == "i16"@ {
        Some(IntTy::I16)
    } else if s == "i32"@ {
        Some(IntTy::I32)
    } else if s == "i64"@ {
        Some(IntTy::I64)
    } else if s == "isize"@ {
        Some(IntTy::Isize)
    } else if s == "u8"@ {
        Some(IntTy::U8)
    } else if s == "u16"@ {
        Some(IntTy::U16)
    } else if s == "u32"@ {
        Some(IntTy::U32)
    } else if s == "u64"@ {
        Some(IntTy::U64)
    } else if s == "usize"@ {
        Some(IntTy::Usize)
    } else {
        None
    }
}

fn int_ty_from_name(s: &str) -> (r: Option<IntTy>)
    ensures
        r == int_ty_of(s@),
{
    if str_eq(s, "i8") {
        Some(IntTy::I8)
    } else if str_eq(s, "i16") {
        Some(IntTy::I16)
    } else if str_eq(s, "i32") {
        Some(IntTy::I32)
    } else if str_eq(s, "i64") {
        Some(IntTy::I64)
    } else if str_eq(s, "isize") {
        Some(IntTy::Isize)
    } else if str_eq(s, "u8") {
        Some(IntTy::U8)
    } else if str_eq(s, "u16") {
        Some(IntTy::U16)
    } else if str_eq(s, "u32") {
        Some(IntTy::U32)
    } else if str_eq(s, "u64") {
        Some(IntTy::U64)
    } else if str_eq(s, "usize") {
        Some(IntTy::Usize)
    } else {
        None
    }
}

/// The model type of a path type: `None` where the path carries arguments
/// (or is empty); scalar names map to their own types, every other path is `Owned`.
pub open spec fn ty_of_path(p: &ast::Path) -> Option<Ty<'_>> {
    if exists|k: int| 0 <= k < p.segments@.len() && #[trigger] p.segments@[k].has_arguments {
        None
    } else if p.leading_colon || p.segments@.len() > 1 {
        Some(Ty::Owned(p))
    } else if p.segments@.len() == 0 {
        None
    } else {
        let id = p.segments@[0].ident@;
        if id == "char"@ {
            Some(Ty::Char)
        } else if id == "bool"@ {
            Some(Ty::Bool)
        } else {
            match int_ty_of(id) {
                Some(k) => Some(Ty::Integer(k)),
                None => Some(Ty::Owned(p)),
            }
        }
    }
}

/// The model type of a source type, or `None` where the source type is not accepted.
pub open spec fn ty_of(t: &ast::TypeExpr) -> Option<Ty<'_>>
    decreases t,
{
    match t {
        ast::TypeExpr::Reference { has_lifetime, mutable, elem } => {
            if *has_lifetime || *mutable {
                None
            } else {
                match &**elem {
                    ast::TypeExpr::Path { qualified_self, path } => {
                        if *qualified_self {
                            None
                        } else {
                            match ty_of_path(path) {
                                Some(x) => Some(Ty::Borrowed(Box::new(x))),
                                None => None,
                            }
                        }
                    },
                    _ => None,
                }
            }
        },
        ast::TypeExpr::Tuple(n) => if *n == 0 { Some(Ty::Unit) } else { None },
        ast::TypeExpr::Path { qualified_self, path } => {
            if *qualified_self {
                None
            } else {
                ty_of_path(path)
            }
        },
        ast::TypeExpr::Paren(e) => ty_of(&**e),
        ast::TypeExpr::Group(e) => ty_of(&**e),
        _ => None,
    }
}

fn extract_ty_path<'a>(p: &'a ast::Path) -> (r: Option<Ty<'a>>)
    ensures
        r == ty_of_path(p),
{
    let mut k: usize = 0;
    while k < p.segments.len()
        invariant
            k <= p.segments@.len(),
            forall|j: int| 0 <= j < k ==> !(#[trigger] p.segments@[j].has_arguments),
        decreases p.segments.len() - k,
    {
        if p.segments[k].has_arguments {
            return None;
        }
        k += 1;
    }
    if p.leading_colon || p.segments.len() > 1 {
        return Some(Ty::Owned(p));
    }
    if p.segments.len() == 0 {
        return None;
    }
    let id = p.segments[0].ident.as_str();
    if str_eq(id, "char") {
        Some(Ty::Char)
    } else if str_eq(id, "bool") {
        Some(Ty::Bool)
    } else {
        match int_ty_from_name(id) {
            Some(k) => Some(Ty::Integer(k)),
            None => Some(Ty::Owned(p)),
        }
    }
}

fn extract_ty<'a>(t: &'a ast::TypeExpr) -> (r: Option<Ty<'a>>)
    ensures
        r == ty_of(t),
    decreases t,
{
    match t {
        ast::TypeExpr::Reference { has_lifetime, mutable, elem } => {
            if *has_lifetime || *mutable {
                None
            } else {
                match &**elem {
                    ast::TypeExpr::Path { qualified_self, path } => {
                        if *qualified_self {
                            None
                        } else {
                            match extract_ty_path(path) {
                                Some(x) => Some(Ty::Borrowed(Box::new(x))),
                                None => None,
                            }
                        }
                    },
                    _ => None,
                }
            }
        },
        ast::TypeExpr::Tuple(n) => if *n == 0 { Some(Ty::Unit) } else { None },
        ast::TypeExpr::Path { qualified_self, path } => {
            if *qualified_self {
                None
            } else {
                extract_ty_path(path)
            }
        },
        ast::TypeExpr::Paren(e) => extract_ty(&**e),
        ast::TypeExpr::Group(e) => extract_ty(&**e),
        _ => None,
    }
}

// ---------------------------------------------------------------------------
// Signatures and slots

/// The model of one parameter; the receiver must come first and only there.
pub open spec fn arg_of<'a>(mname: &'a String, a: &'a ast::FnArg, first: bool) -> Result<FnArg<'a>> {
    if first {
        match a {
            ast::FnArg::SelfRef { has_lifetime, mutable } => {
                if !*has_lifetime && !*mutable {
                    Ok(FnArg::SelfRef)
                } else {
                    Err(Error::UnsupportedArgumentPattern(*mname))
                }
            },
            _ => Err(Error::UnsupportedArgumentPattern(*mname)),
        }
    } else {
        match a {
            ast::FnArg::Captured { pat, ty } => match pat {
                ast::Pat::Ident { by_ref, mutable, name, has_subpattern } => {
                    if !*by_ref && !*has_subpattern {
                        match ty_of(ty) {
                            Some(t) => Ok(FnArg::Arg { mutbl: *mutable, name: name, ty: t }),
                            None => Err(Error::UnsupportedType(*mname)),
                        }
                    } else {
                        Err(Error::UnsupportedArgumentPattern(*mname))
                    }
                },
                _ => Err(Error::UnsupportedArgumentPattern(*mname)),
            },
            _ => Err(Error::UnsupportedArgumentPattern(*mname)),
        }
    }
}

/// The models of the first `n` parameters of `m`, or the first error among them.
pub open spec fn args_prefix<'a>(m: &'a ast::ImplItemMethod, n: int) -> Result<Seq<FnArg<'a>>>
    decreases n,
{
    if n <= 0 {
        Ok(Seq::empty())
    } else {
        match args_prefix(m, n - 1) {
            Err(e) => Err(e),
            Ok(s) => match arg_of(&m.name, &m.inputs@[n - 1], n - 1 == 0) {
                Err(e) => Err(e),
                Ok(a) => Ok(s.push(a)),
            },
        }
    }
}

/// The models of all parameters of `m`; a method without a receiver is refused.
pub open spec fn inputs_of<'a>(m: &'a ast::ImplItemMethod) -> Result<Seq<FnArg<'a>>> {
    if m.inputs@.len() == 0 {
        Err(Error::UnsupportedArgumentPattern(m.name))
    } else {
        args_prefix(m, m.inputs@.len() as int)
    }
}

/// The model of the return type of `m`.
pub open spec fn output_of<'a>(m: &'a ast::ImplItemMethod) -> Result<Ty<'a>> {
    match &m.output {
        ast::ReturnType::Default => Ok(Ty::Unit),
        ast::ReturnType::Type(t) => match ty_of(t) {
            Some(x) => Ok(x),
            None => Err(Error::UnsupportedType(m.name)),
        },
    }
}

/// The signature of `m`: the return type is checked before the parameters.
pub open spec fn sig_of<'a>(m: &'a ast::ImplItemMethod) -> Result<SigView<'a>> {
    match output_of(m) {
        Err(e) => Err(e),
        Ok(o) => match inputs_of(m) {
            Err(e) => Err(e),
            Ok(i) => Ok(SigView { name: &m.name, inputs: i, output: o }),
        },
    }
}

pub open spec fn body_of<'a>(m: &'a ast::ImplItemMethod) -> Option<&'a String> {
    match &m.body {
        Some(b) => Some(b),
        None => None,
    }
}

/// The slot that a method declaration of a plain impl block becomes.
pub open spec fn slot_of<'a>(m: &'a ast::ImplItemMethod) -> Result<SlotView<'a>> {
    if m.signal {
        if m.public {
            Err(Error::InvalidOverrideContext(m.name, ContextProblem::PublicSignal))
        } else if m.virtual_ {
            Err(Error::InvalidOverrideContext(m.name, ContextProblem::VirtualSignal))
        } else {
            match sig_of(m) {
                Err(e) => Err(e),
                Ok(s) => Ok(SlotView { kind: SlotKind::Signal, public: false, sig: s, body: body_of(m) }),
            }
        }
    } else if m.virtual_ {
        if m.public {
            Err(Error::InvalidOverrideContext(m.name, ContextProblem::PublicVirtual))
        } else {
            match sig_of(m) {
                Err(e) => Err(e),
                Ok(s) => Ok(SlotView { kind: SlotKind::VirtualMethod, public: false, sig: s, body: body_of(m) }),
            }
        }
    } else {
        match sig_of(m) {
            Err(e) => Err(e),
            Ok(s) => match body_of(m) {
                None => Err(Error::MissingBody(m.name)),
                Some(b) => Ok(SlotView { kind: SlotKind::Method, public: m.public, sig: s, body: Some(b) }),
            },
        }
    }
}

pub open spec fn slot_result_view<'a>(r: Result<Slot<'a>>) -> Result<SlotView<'a>> {
    match r {
        Ok(s) => Ok(s@),
        Err(e) => Err(e),
    }
}

fn extract_arg<'a>(mname: &'a String, a: &'a ast::FnArg, first: bool) -> (r: Result<FnArg<'a>>)
    ensures
        r == arg_of(mname, a, first),
{
    if first {
        match a {
            ast::FnArg::SelfRef { has_lifetime, mutable } => {
                if !*has_lifetime && !*mutable {
                    Ok(FnArg::SelfRef)
                } else {
                    Err(Error::UnsupportedArgumentPattern(mname.clone()))
                }
            },
            _ => Err(Error::UnsupportedArgumentPattern(mname.clone())),
        }
    } else {
        match a {
            ast::FnArg::Captured { pat, ty } => match pat {
                ast::Pat::Ident { by_ref, mutable, name, has_subpattern } => {
                    if !*by_ref && !*has_subpattern {
                        match extract_ty(ty) {
                            Some(t) => Ok(FnArg::Arg { mutbl: *mutable, name: name, ty: t }),
                            None => Err(Error::UnsupportedType(mname.clone())),
                        }
                    } else {
                        Err(Error::UnsupportedArgumentPattern(mname.clone()))
                    }
                },
                _ => Err(Error::UnsupportedArgumentPattern(mname.clone())),
            },
            _ => Err(Error::UnsupportedArgumentPattern(mname.clone())),
        }
    }
}

fn extract_inputs<'a>(m: &'a ast::ImplItemMethod) -> (r: Result<Vec<FnArg<'a>>>)
    ensures
        match r {
            Ok(v) => inputs_of(m) == Ok::<Seq<FnArg<'a>>, Error>(v@),
            Err(e) => inputs_of(m) == Err::<Seq<FnArg<'a>>, Error>(e),
        },
{
    if m.inputs.len() == 0 {
        return Err(Error::UnsupportedArgumentPattern(m.name.clone()));
    }
    let mut v: Vec<FnArg<'a>> = Vec::new();
    let mut i: usize = 0;
    while i < m.inputs.len()
        invariant
            i <= m.inputs@.len(),
            args_prefix(m, i as int) == Ok::<Seq<FnArg<'a>>, Error>(v@),
        decreases m.inputs.len() - i,
    {
        let a = extract_arg(&m.name, &m.inputs[i], i == 0);
        match a {
            Ok(a) => v.push(a),
            Err(e) => {
                proof {
                    lemma_args_prefix_err(m, i as int + 1, m.inputs@.len() as int);
                }
                return Err(e);
            },
        }
        i += 1;
    }
    Ok(v)
}

/// Once a prefix of the parameters fails, every longer prefix fails the same way.
proof fn lemma_args_prefix_err<'a>(m: &'a ast::ImplItemMethod, n: int, k: int)
    requires
        1 <= n <= k,
        args_prefix(m, n) is Err,
    ensures
        args_prefix(m, k) == args_prefix(m, n),
    decreases k - n,
{
    if k > n {
        lemma_args_prefix_err(m, n, k - 1);
    }
}

fn extract_output<'a>(m: &'a ast::ImplItemMethod) -> (r: Result<Ty<'a>>)
    ensures
        r == output_of(m),
{
    match &m.output {
        ast::ReturnType::Default => Ok(Ty::Unit),
        ast::ReturnType::Type(t) => match extract_ty(t) {
            Some(x) => Ok(x),
            None => Err(Error::UnsupportedType(m.name.clone())),
        },
    }
}

fn extract_sig<'a>(m: &'a ast::ImplItemMethod) -> (r: Result<FnSig<'a>>)
    ensures
        match r {
            Ok(s) => sig_of(m) == Ok::<SigView<'a>, Error>(s@),
            Err(e) => sig_of(m) == Err::<SigView<'a>, Error>(e),
        },
{
    let output = extract_output(m)?;
    let inputs = extract_inputs(m)?;
    Ok(FnSig { name: &m.name, inputs, output })
}

/// Translates a method declaration of a plain impl block into a slot.
pub fn translate_method<'a>(m: &'a ast::ImplItemMethod) -> (r: Result<Slot<'a>>)
    ensures
        slot_result_view(r) == slot_of(m),
{
    if m.signal {
        if m.public {
            return Err(Error::InvalidOverrideContext(m.name.clone(), ContextProblem::PublicSignal));
        }
        if m.virtual_ {
            return Err(Error::InvalidOverrideContext(m.name.clone(), ContextProblem::VirtualSignal));
        }
        let sig = extract_sig(m)?;
        Ok(Slot::Signal(Signal { sig, body: m.body.as_ref() }))
    } else if m.virtual_ {
        if m.public {
            return Err(Error::InvalidOverrideContext(m.name.clone(), ContextProblem::PublicVirtual));
        }
        let sig = extract_sig(m)?;
        Ok(Slot::VirtualMethod(VirtualMethod { sig, body: m.body.as_ref() }))
    } else {
        let sig = extract_sig(m)?;
        match m.body.as_ref() {
            None => Err(Error::MissingBody(m.name.clone())),
            Some(b) => Ok(Slot::Method(Method { public: m.public, sig, body: b })),
        }
    }
}

// ---------------------------------------------------------------------------
// Impl blocks

/// What a plain impl block adds to its class.
pub struct Contribution<'ast> {
    pub slots: Seq<SlotView<'ast>>,
    pub properties: Seq<Property<'ast>>,
}

/// What the first `n` items of a plain impl block for class `cname` add, or
/// the first error among them.
pub open spec fn plain_items<'a>(cname: &'a String, items: &'a Vec<ast::ImplItem>, n: int) -> Result<Contribution<'a>>
    decreases n,
{
    if n <= 0 {
        Ok(Contribution { slots: Seq::empty(), properties: Seq::empty() })
    } else {
        match plain_items(cname, items, n - 1) {
            Err(e) => Err(e),
            Ok(c) => match &items@[n - 1].node {
                ast::ImplItemKind::Method(m) => match slot_of(m) {
                    Err(e) => Err(e),
                    Ok(s) => Ok(Contribution { slots: c.slots.push(s), properties: c.properties }),
                },
                ast::ImplItemKind::Prop(p) => Ok(Contribution {
                    slots: c.slots,
                    properties: c.properties.push(Property { name: &p.name, decl: p }),
                }),
                ast::ImplItemKind::ReserveSlots(_) => Err(Error::InvalidOverrideContext(*cname, ContextProblem::SlotReservation)),
            },
        }
    }
}

/// The override that one item of `impl Parent for X` gives: a virtual method with a body.
pub open spec fn override_of<'a>(cname: &'a String, item: &'a ast::ImplItem) -> Result<SlotView<'a>> {
    match &item.node {
        ast::ImplItemKind::Method(m) => {
            if m.signal {
                Err(Error::InvalidOverrideContext(m.name, ContextProblem::SignalOverride))
            } else if !m.virtual_ {
                Err(Error::InvalidOverrideContext(m.name, ContextProblem::NonVirtualOverride))
            } else if m.public {
                Err(Error::InvalidOverrideContext(m.name, ContextProblem::PublicOverride))
            } else {
                match slot_of(m) {
                    Err(e) => Err(e),
                    Ok(s) => match s.body {
                        None => Err(Error::MissingBody(m.name)),
                        Some(b) => Ok(SlotView { kind: SlotKind::Method, public: false, sig: s.sig, body: Some(b) }),
                    },
                }
            }
        },
        ast::ImplItemKind::Prop(p) => Err(Error::InvalidOverrideContext(p.name, ContextProblem::PropertyOverride)),
        ast::ImplItemKind::ReserveSlots(_) => Err(Error::InvalidOverrideContext(*cname, ContextProblem::SlotReservation)),
    }
}

/// The overrides that the first `n` items of `impl Parent for X` give, or the first error.
pub open spec fn override_items<'a>(cname: &'a String, items: &'a Vec<ast::ImplItem>, n: int) -> Result<Seq<SlotView<'a>>>
    decreases n,
{
    if n <= 0 {
        Ok(Seq::empty())
    } else {
        match override_items(cname, items, n - 1) {
            Err(e) => Err(e),
            Ok(s) => match override_of(cname, &items@[n - 1]) {
                Err(e) => Err(e),
                Ok(m) => Ok(s.push(m)),
            },
        }
    }
}

/// The index of the first entry of `ovs` for the ancestor named `parent`.
pub open spec fn find_override(ovs: Seq<OverrideView>, parent: Seq<char>) -> Option<int>
    decreases ovs.len(),
{
    if ovs.len() == 0 {
        None
    } else {
        match find_override(ovs.drop_last(), parent) {
            Some(k) => Some(k),
            None => if ovs.last().parent@ == parent { Some(ovs.len() - 1) } else { None },
        }
    }
}

/// `ovs` after the overrides `ms` for `parent` were added: appended to the
/// ancestor's entry, or a new entry at the end. No override adds no entry.
pub open spec fn add_overrides<'a>(ovs: Seq<OverrideView<'a>>, parent: &'a String, ms: Seq<SlotView<'a>>) -> Seq<OverrideView<'a>> {
    if ms.len() == 0 {
        ovs
    } else {
        match find_override(ovs, parent@) {
            Some(k) => ovs.update(k, OverrideView { parent: ovs[k].parent, methods: ovs[k].methods + ms }),
            None => ovs.push(OverrideView { parent: parent, methods: ms }),
        }
    }
}

/// The index of the class named `name`.
pub open spec fn find_class(cs: Seq<ClassView>, name: Seq<char>) -> Option<int>
    decreases cs.len(),
{
    if cs.len() == 0 {
        None
    } else {
        match find_class(cs.drop_last(), name) {
            Some(k) => Some(k),
            None => if cs.last().name@ == name { Some(cs.len() - 1) } else { None },
        }
    }
}

/// The classes after the impl block `i`, or the error it raises.
pub open spec fn apply_impl<'a>(cs: Seq<ClassView<'a>>, i: &'a ast::Impl) -> Result<Seq<ClassView<'a>>> {
    match find_class(cs, i.self_path@) {
        None => Err(Error::UnknownSelfClass(i.self_path)),
        Some(k) => {
            if i.is_interface {
                Err(Error::InvalidOverrideContext(i.self_path, ContextProblem::InterfaceImplementation))
            } else {
                match &i.trait_ {
                    None => match plain_items(&i.self_path, &i.items, i.items@.len() as int) {
                        Err(e) => Err(e),
                        Ok(c) => Ok(cs.update(k, ClassView {
                            slots: cs[k].slots + c.slots,
                            properties: cs[k].properties + c.properties,
                            ..cs[k]
                        })),
                    },
                    Some(parent) => match override_items(&i.self_path, &i.items, i.items@.len() as int) {
                        Err(e) => Err(e),
                        Ok(ms) => Ok(cs.update(k, ClassView {
                            overrides: add_overrides(cs[k].overrides, parent, ms),
                            ..cs[k]
                        })),
                    },
                }
            }
        },
    }
}

fn translate_override<'a>(cname: &'a String, item: &'a ast::ImplItem) -> (r: Result<Method<'a>>)
    ensures
        match r {
            Ok(m) => override_of(cname, item) == Ok::<SlotView<'a>, Error>(m@),
            Err(e) => override_of(cname, item) == Err::<SlotView<'a>, Error>(e),
        },
{
    match &item.node {
        ast::ImplItemKind::Method(m) => {
            if m.signal {
                return Err(Error::InvalidOverrideContext(m.name.clone(), ContextProblem::SignalOverride));
            }
            if !m.virtual_ {
                return Err(Error::InvalidOverrideContext(m.name.clone(), ContextProblem::NonVirtualOverride));
            }
            if m.public {
                return Err(Error::InvalidOverrideContext(m.name.clone(), ContextProblem::PublicOverride));
            }
            match translate_method(m)? {
                Slot::VirtualMethod(VirtualMethod { sig, body: Some(body) }) => Ok(Method { public: false, sig, body }),
                _ => Err(Error::MissingBody(m.name.clone())),
            }
        },
        ast::ImplItemKind::Prop(p) => Err(Error::InvalidOverrideContext(p.name.clone(), ContextProblem::PropertyOverride)),
        ast::ImplItemKind::ReserveSlots(_) => Err(Error::InvalidOverrideContext(cname.clone(), ContextProblem::SlotReservation)),
    }
}

proof fn lemma_plain_items_err<'a>(cname: &'a String, items: &'a Vec<ast::ImplItem>, n: int, k: int)
    requires
        1 <= n <= k,
        plain_items(cname, items, n) is Err,
    ensures
        plain_items(cname, items, k) == plain_items(cname, items, n),
    decreases k - n,
{
    if k > n {
        lemma_plain_items_err(cname, items, n, k - 1);
    }
}

proof fn lemma_override_items_err<'a>(cname: &'a String, items: &'a Vec<ast::ImplItem>, n: int, k: int)
    requires
        1 <= n <= k,
        override_items(cname, items, n) is Err,
    ensures
        override_items(cname, items, k) == override_items(cname, items, n),
    decreases k - n,
{
    if k > n {
        lemma_override_items_err(cname, items, n, k - 1);
    }
}

fn translate_plain_items<'a>(cname: &'a String, items: &'a Vec<ast::ImplItem>) -> (r: Result<(Vec<Slot<'a>>, Vec<Property<'a>>)>)
    ensures
        match r {
            Ok((s, p)) => plain_items(cname, items, items@.len() as int) == Ok::<Contribution<'a>, Error>(
                Contribution { slots: slot_views(s@), properties: p@ }),
            Err(e) => plain_items(cname, items, items@.len() as int) == Err::<Contribution<'a>, Error>(e),
        },
{
    let mut slots: Vec<Slot<'a>> = Vec::new();
    let mut props: Vec<Property<'a>> = Vec::new();
    proof {
        assert(slot_views(slots@) =~= Seq::<SlotView<'a>>::empty());
    }
    let mut i: usize = 0;
    while i < items.len()
        invariant
            i <= items@.len(),
            plain_items(cname, items, i as int) == Ok::<Contribution<'a>, Error>(
                Contribution { slots: slot_views(slots@), properties: props@ }),
        decreases items.len() - i,
    {
        match &items[i].node {
            ast::ImplItemKind::Method(m) => match translate_method(m) {
                Ok(s) => {
                    let ghost before = slots@;
                    let ghost sv = s@;
                    slots.push(s);
                    proof {
                        assert(slot_views(slots@) =~= slot_views(before).push(sv));
                    }
                },
                Err(e) => {
                    proof { lemma_plain_items_err(cname, items, i as int + 1, items@.len() as int); }
                    return Err(e);
                },
            },
            ast::ImplItemKind::Prop(p) => props.push(Property { name: &p.name, decl: p }),
            ast::ImplItemKind::ReserveSlots(_) => {
                proof { lemma_plain_items_err(cname, items, i as int + 1, items@.len() as int); }
                return Err(Error::InvalidOverrideContext(cname.clone(), ContextProblem::SlotReservation));
            },
        }
        i += 1;
    }
    Ok((slots, props))
}

fn translate_override_items<'a>(cname: &'a String, items: &'a Vec<ast::ImplItem>) -> (r: Result<Vec<Method<'a>>>)
    ensures
        match r {
            Ok(ms) => override_items(cname, items, items@.len() as int) == Ok::<Seq<SlotView<'a>>, Error>(method_views(ms@)),
            Err(e) => override_items(cname, items, items@.len() as int) == Err::<Seq<SlotView<'a>>, Error>(e),
        },
{
    let mut ms: Vec<Method<'a>> = Vec::new();
    proof {
        assert(method_views(ms@) =~= Seq::<SlotView<'a>>::empty());
    }
    let mut i: usize = 0;
    while i < items.len()
        invariant
            i <= items@.len(),
            override_items(cname, items, i as int) == Ok::<Seq<SlotView<'a>>, Error>(method_views(ms@)),
        decreases items.len() - i,
    {
        match translate_override(cname, &items[i]) {
            Ok(m) => {
                let ghost before = ms@;
                let ghost mv = m@;
                ms.push(m);
                proof {
                    assert(method_views(ms@) =~= method_views(before).push(mv));
                }
            },
            Err(e) => {
                proof { lemma_override_items_err(cname, items, i as int + 1, items@.len() as int); }
                return Err(e);
            },
        }
        i += 1;
    }
    Ok(ms)
}

/// The class model that a class declaration starts as: no slots, overrides or properties yet.
pub open spec fn class_init<'a>(c: &'a ast::Class) -> ClassView<'a> {
    ClassView {
        name: &c.name,
        gobject_parent: c.extends is None,
        extends: match &c.extends {
            Some(p) => Some(p),
            None => None,
        },
        private_fields: c.fields@,
        slots: Seq::empty(),
        overrides: Seq::empty(),
        properties: Seq::empty(),
    }
}

/// Whether two of `cs` share a name.
pub open spec fn has_duplicate_names(cs: Seq<ast::Class>) -> bool {
    exists|i: int, j: int| 0 <= i < j < cs.len() && cs[i].name@ == cs[j].name@
}

/// The classes after the first `n` impl blocks of `impls`, or the first error.
pub open spec fn apply_impls<'a>(cs: Seq<ClassView<'a>>, impls: Seq<ast::Impl>, n: int) -> Result<Seq<ClassView<'a>>>
    decreases n,
{
    if n <= 0 {
        Ok(cs)
    } else {
        match apply_impls(cs, impls, n - 1) {
            Err(e) => Err(e),
            Ok(c) => apply_impl(c, &impls[n - 1]),
        }
    }
}

proof fn lemma_apply_impls_err<'a>(cs: Seq<ClassView<'a>>, impls: Seq<ast::Impl>, n: int, k: int)
    requires
        1 <= n <= k,
        apply_impls(cs, impls, n) is Err,
    ensures
        apply_impls(cs, impls, k) == apply_impls(cs, impls, n),
    decreases k - n,
{
    if k > n {
        lemma_apply_impls_err(cs, impls, n, k - 1);
    }
}

impl<'ast> Classes<'ast> {
    /// No two classes share a name.
    pub open spec fn wf(&self) -> bool {
        forall|i: int, j: int| 0 <= i < j < self.items@.len() ==> self.items@[i].name@ != self.items@[j].name@
    }

    fn new() -> (r: Classes<'ast>)
        ensures
            r@ == Seq::<ClassView<'ast>>::empty(),
            r.wf(),
    {
        let r = Classes { items: Vec::new() };
        proof {
            assert(r@ =~= Seq::<ClassView<'ast>>::empty());
        }
        r
    }

    pub fn len(&self) -> (r: usize)
        ensures
            r == self@.len(),
    {
        self.items.len()
    }

    /// The index of the class named `name`.
    pub fn position(&self, name: &str) -> (r: Option<usize>)
        ensures
            match r {
                Some(k) => find_class(self@, name@) == Some(k as int),
                None => find_class(self@, name@) is None,
            },
    {
        let mut k: usize = 0;
        while k < self.items.len()
            invariant
                k <= self.items@.len(),
                find_class(self@.subrange(0, k as int), name@) is None,
            decreases self.items.len() - k,
        {
            proof {
                assert(self@.subrange(0, k + 1).drop_last() =~= self@.subrange(0, k as int));
            }
            if str_eq(self.items[k].name.as_str(), name) {
                proof { lemma_find_class_prefix(self@, k as int + 1, name@); }
                return Some(k);
            }
            k += 1;
        }
        proof {
            assert(self@.subrange(0, k as int) =~= self@);
        }
        None
    }

    /// The class named `name`.
    pub fn get(&self, name: &str) -> (r: &Class<'ast>)
        requires
            find_class(self@, name@) is Some,
        ensures
            r@ == self@[find_class(self@, name@)->Some_0],
    {
        let k = self.position(name);
        proof { lemma_find_class_bounds(self@, name@); }
        &self.items[k.unwrap()]
    }

    /// The classes in declaration order.
    pub fn iter(&self) -> (r: &Vec<Class<'ast>>)
        ensures
            r@.map_values(|c: Class<'ast>| c@) == self@,
    {
        &self.items
    }

    /// Pass one: records a class declaration; a second class of the same name is refused.
    fn add(&mut self, c: &'ast ast::Class) -> (r: Result<()>)
        requires
            old(self).wf(),
        ensures
            match find_class(old(self)@, c.name@) {
                Some(_) => r == Err::<(), Error>(Error::DuplicateClass(c.name)) && *final(self) == *old(self),
                None => r is Ok && final(self)@ == old(self)@.push(class_init(c)) && final(self).wf(),
            },
    {
        if self.position(c.name.as_str()).is_some() {
            return Err(Error::DuplicateClass(c.name.clone()));
        }
        let mut fields: Vec<&'ast ast::Field> = Vec::new();
        let mut i: usize = 0;
        while i < c.fields.len()
            invariant
                i <= c.fields@.len(),
                fields@.len() == i,
                forall|j: int| 0 <= j < i ==> *fields@[j] == c.fields@[j],
            decreases c.fields.len() - i,
        {
            fields.push(&c.fields[i]);
            i += 1;
        }
        let class = Class {
            name: &c.name,
            gobject_parent: c.extends.is_none(),
            extends: c.extends.as_ref(),
            private_fields: fields,
            slots: Vec::new(),
            overrides: Vec::new(),
            properties: Vec::new(),
        };
        proof {
            assert(class@.private_fields =~= class_init(c).private_fields);
            assert(class@.slots =~= Seq::<SlotView<'ast>>::empty());
            assert(class@.overrides =~= Seq::<OverrideView<'ast>>::empty());
            assert(class@ == class_init(c));
            lemma_find_class_none(self@, c.name@);
        }
        let ghost before = self@;
        let ghost items_before = self.items@;
        proof {
            assert forall|k: int| 0 <= k < items_before.len() implies items_before[k].name@ != c.name@ by {
                assert(before[k].name == items_before[k].name);
            }
        }
        self.items.push(class);
        proof {
            assert(self@ =~= before.push(class_init(c)));
            assert(self.items@[items_before.len() as int].name == &c.name);
            assert(forall|k: int| 0 <= k < items_before.len() ==> self.items@[k] == items_before[k]);
        }
        Ok(())
    }
}

proof fn lemma_find_class_prefix(cs: Seq<ClassView>, k: int, name: Seq<char>)
    requires
        1 <= k <= cs.len(),
        find_class(cs.subrange(0, k - 1), name) is None,
        cs[k - 1].name@ == name,
    ensures
        find_class(cs, name) == Some(k - 1),
    decreases cs.len() - k,
{
    assert(cs.subrange(0, k).drop_last() =~= cs.subrange(0, k - 1));
    if k < cs.len() {
        assert(cs.subrange(0, k + 1).drop_last() =~= cs.subrange(0, k));
        lemma_find_class_extend(cs.subrange(0, k + 1), name);
        lemma_find_class_prefix_extend(cs, k + 1, name);
    } else {
        assert(cs.subrange(0, k) =~= cs);
    }
}

proof fn lemma_find_class_extend(cs: Seq<ClassView>, name: Seq<char>)
    requires
        cs.len() > 0,
        find_class(cs.drop_last(), name) is Some,
    ensures
        find_class(cs, name) == find_class(cs.drop_last(), name),
{
}

proof fn lemma_find_class_prefix_extend(cs: Seq<ClassView>, k: int, name: Seq<char>)
    requires
        1 <= k <= cs.len(),
        find_class(cs.subrange(0, k - 1), name) is Some,
    ensures
        find_class(cs, name) == find_class(cs.subrange(0, k - 1), name),
    decreases cs.len() - k,
{
    assert(cs.subrange(0, k).drop_last() =~= cs.subrange(0, k - 1));
    if k < cs.len() {
        lemma_find_class_prefix_extend(cs, k + 1, name);
    } else {
        assert(cs.subrange(0, k) =~= cs);
    }
}

/// A found index is in bounds and names the class looked for.
pub proof fn lemma_find_class_bounds(cs: Seq<ClassView>, name: Seq<char>)
    ensures
        match find_class(cs, name) {
            Some(k) => 0 <= k < cs.len() && cs[k].name@ == name,
            None => forall|k: int| 0 <= k < cs.len() ==> cs[k].name@ != name,
        },
    decreases cs.len(),
{
    if cs.len() > 0 {
        lemma_find_class_bounds(cs.drop_last(), name);
        assert(forall|k: int| 0 <= k < cs.len() - 1 ==> cs.drop_last()[k] == cs[k]);
    }
}

proof fn lemma_find_class_none(cs: Seq<ClassView>, name: Seq<char>)
    requires
        find_class(cs, name) is None,
    ensures
        forall|k: int| 0 <= k < cs.len() ==> cs[k].name@ != name,
{
    lemma_find_class_bounds(cs, name);
}

/// The index that `find_override` gives is the least one whose ancestor is `parent`.
pub proof fn lemma_find_override(ovs: Seq<OverrideView>, parent: Seq<char>)
    ensures
        match find_override(ovs, parent) {
            Some(k) => 0 <= k < ovs.len() && ovs[k].parent@ == parent
                && forall|j: int| 0 <= j < k ==> ovs[j].parent@ != parent,
            None => forall|j: int| 0 <= j < ovs.len() ==> ovs[j].parent@ != parent,
        },
    decreases ovs.len(),
{
    if ovs.len() > 0 {
        lemma_find_override(ovs.drop_last(), parent);
        assert(forall|k: int| 0 <= k < ovs.len() - 1 ==> ovs.drop_last()[k] == ovs[k]);
    }
}

impl<'ast> Class<'ast> {
    fn add_overrides(&mut self, parent: &'ast String, ms: Vec<Method<'ast>>)
        ensures
            final(self)@ == (ClassView {
                overrides: add_overrides(old(self)@.overrides, parent, method_views(ms@)),
                ..old(self)@
            }),
            final(self).name == old(self).name,
    {
        if ms.len() == 0 {
            proof {
                assert(method_views(ms@).len() == 0);
            }
            return;
        }
        let ghost ovs = old(self)@.overrides;
        let mut k: usize = 0;
        while k < self.overrides.len() && !str_eq(self.overrides[k].parent.as_str(), parent.as_str())
            invariant
                *self == *old(self),
                ovs == self@.overrides,
                k <= self.overrides@.len(),
                forall|j: int| 0 <= j < k ==> ovs[j].parent@ != parent@,
            decreases self.overrides.len() - k,
        {
            k += 1;
        }
        proof { lemma_find_override(ovs, parent@); }
        let ghost mv = method_views(ms@);
        assert(mv.len() == ms@.len());
        if k < self.overrides.len() {
            proof {
                assert(ovs[k as int].parent@ == parent@);
                assert(find_override(ovs, parent@) == Some(k as int));
            }
            let mut o = self.overrides.remove(k);
            let ghost old_o = o@;
            let mut ms = ms;
            o.methods.append(&mut ms);
            proof {
                assert(o@.methods =~= old_o.methods + mv);
            }
            self.overrides.insert(k, o);
            proof {
                assert(self@.overrides =~= ovs.update(k as int, OverrideView {
                    parent: ovs[k as int].parent,
                    methods: ovs[k as int].methods + mv,
                }));
            }
        } else {
            proof {
                assert(find_override(ovs, parent@) is None);
            }
            let o = Override { parent, methods: ms };
            self.overrides.push(o);
            proof {
                assert(self@.overrides =~= ovs.push(OverrideView { parent, methods: mv }));
            }
        }
    }

    fn add_contribution(&mut self, slots: Vec<Slot<'ast>>, props: Vec<Property<'ast>>)
        ensures
            final(self)@ == (ClassView {
                slots: old(self)@.slots + slot_views(slots@),
                properties: old(self)@.properties + props@,
                ..old(self)@
            }),
            final(self).name == old(self).name,
    {
        let ghost old_slots = self.slots@;
        let mut slots = slots;
        let mut props = props;
        let ghost new_slots = slots@;
        self.slots.append(&mut slots);
        self.properties.append(&mut props);
        proof {
            assert(slot_views(self.slots@) =~= slot_views(old_slots) + slot_views(new_slots));
        }
    }
}

impl<'ast> Classes<'ast> {
    /// Pass two: applies one impl block to the class it names.
    fn add_impl(&mut self, i: &'ast ast::Impl) -> (r: Result<()>)
        requires
            old(self).wf(),
        ensures
            match apply_impl(old(self)@, i) {
                Ok(v) => r is Ok && final(self)@ == v && final(self).wf(),
                Err(e) => r == Err::<(), Error>(e) && *final(self) == *old(self),
            },
    {
        let k = match self.position(i.self_path.as_str()) {
            Some(k) => k,
            None => return Err(Error::UnknownSelfClass(i.self_path.clone())),
        };
        proof { lemma_find_class_bounds(self@, i.self_path@); }
        if i.is_interface {
            return Err(Error::InvalidOverrideContext(i.self_path.clone(), ContextProblem::InterfaceImplementation));
        }
        let ghost before = self@;
        let ghost items_before = self.items@;
        match &i.trait_ {
            None => {
                let (slots, props) = translate_plain_items(&i.self_path, &i.items)?;
                let mut class = self.items.remove(k);
                class.add_contribution(slots, props);
                self.items.insert(k, class);
            },
            Some(parent) => {
                let ms = translate_override_items(&i.self_path, &i.items)?;
                let mut class = self.items.remove(k);
                class.add_overrides(parent, ms);
                self.items.insert(k, class);
            },
        }
        proof {
            assert(self.items@.len() == items_before.len());
            assert(forall|j: int| 0 <= j < items_before.len() && j != k ==> self.items@[j] == items_before[j]);
            assert(self.items@[k as int].name == items_before[k as int].name);
            assert(forall|j: int| 0 <= j < items_before.len() ==> self.items@[j].name == items_before[j].name);
            let v = apply_impl(before, i)->Ok_0;
            assert(self@ =~= v);
        }
        Ok(())
    }
}

/// The index of the first class of `cs[..n]` whose name an earlier class already has.
pub open spec fn first_duplicate(cs: Seq<ast::Class>, n: int) -> Option<int>
    decreases n,
{
    if n <= 0 {
        None
    } else {
        match first_duplicate(cs, n - 1) {
            Some(j) => Some(j),
            None => if exists|i: int| 0 <= i < n - 1 && #[trigger] cs[i].name@ == cs[n - 1].name@ {
                Some(n - 1)
            } else {
                None
            },
        }
    }
}

/// The class models that pass one records, one for each declaration.
pub open spec fn initial_classes<'a>(cs: Seq<ast::Class>) -> Seq<ClassView<'a>> {
    Seq::new(cs.len(), |i: int| class_init(&cs[i]))
}

/// The class model of a program: pass one records the classes, pass two
/// applies the impl blocks in order. The first error stops the build.
pub open spec fn model_of<'a>(p: &'a ast::Program) -> Result<Seq<ClassView<'a>>> {
    let cs = classes_of(p.items@);
    match first_duplicate(cs, cs.len() as int) {
        Some(j) => Err(Error::DuplicateClass(cs[j].name)),
        None => {
            let impls = impls_of(p.items@);
            apply_impls(initial_classes(cs), impls, impls.len() as int)
        },
    }
}

impl<'ast> Program<'ast> {
    /// Builds the class model of a program.
    pub fn from_ast_program(p: &'ast ast::Program) -> (r: Result<Program<'ast>>)
        ensures
            match model_of(p) {
                Ok(v) => r is Ok && r->Ok_0.classes@ == v && r->Ok_0.classes.wf()
                    && r->Ok_0.interfaces@.len() == interfaces_of(p.items@).len()
                    && forall|k: int| 0 <= k < r->Ok_0.interfaces@.len() ==>
                        r->Ok_0.interfaces@[k].name == interfaces_of(p.items@)[k].name,
                Err(e) => r == Err::<Program<'ast>, Error>(e),
            },
    {
        crate::checking::check_program(p)?;
        let ast_classes = p.classes();
        let ghost cs = classes_of(p.items@);
        let mut classes = Classes::new();
        let mut j: usize = 0;
        while j < ast_classes.len()
            invariant
                ast_classes@.map_values(|x: &ast::Class| *x) == cs,
                cs == classes_of(p.items@),
                j <= cs.len(),
                first_duplicate(cs, j as int) is None,
                classes.wf(),
                classes@ == Seq::new(j as nat, |i: int| class_init(&cs[i])),
            decreases ast_classes.len() - j,
        {
            let c = ast_classes[j];
            proof {
                assert(ast_classes@.len() == cs.len());
                assert(*c == cs[j as int]);
                lemma_find_class_bounds(classes@, c.name@);
            }
            let ghost before = classes@;
            match classes.add(c) {
                Ok(()) => {
                    proof {
                        assert(forall|i: int| 0 <= i < j ==> before[i].name@ == #[trigger] cs[i].name@);
                        assert(first_duplicate(cs, j as int + 1) is None);
                        assert(classes@ =~= Seq::new(j as nat + 1, |i: int| class_init(&cs[i])));
                    }
                },
                Err(e) => {
                    proof {
                        let k = find_class(before, c.name@)->Some_0;
                        assert(before[k].name@ == cs[k].name@);
                        assert(first_duplicate(cs, j as int + 1) == Some(j as int));
                        lemma_first_duplicate_stays(cs, j as int + 1, cs.len() as int);
                        assert(e == Error::DuplicateClass(cs[j as int].name));
                        assert(model_of(p) == Err::<Seq<ClassView<'ast>>, Error>(e));
                    }
                    return Err(e);
                },
            }
            j += 1;
        }
        let impls = p.impls();
        let ghost ims = impls_of(p.items@);
        let mut n: usize = 0;
        while n < impls.len()
            invariant
                impls@.map_values(|x: &ast::Impl| *x) == ims,
                ims == impls_of(p.items@),
                cs == classes_of(p.items@),
                n <= ims.len(),
                j == cs.len(),
                first_duplicate(cs, cs.len() as int) is None,
                classes.wf(),
                apply_impls(initial_classes(cs), ims, n as int)
                    == Ok::<Seq<ClassView<'ast>>, Error>(classes@),
            decreases impls.len() - n,
        {
            let im = impls[n];
            proof {
                assert(*im == ims[n as int]);
            }
            match classes.add_impl(im) {
                Ok(()) => {},
                Err(e) => {
                    proof {
                        lemma_apply_impls_err(initial_classes(cs), ims, n as int + 1, ims.len() as int);
                    }
                    return Err(e);
                },
            }
            n += 1;
        }
        let ast_ifaces = p.interfaces();
        let mut interfaces: Vec<Interface<'ast>> = Vec::new();
        let mut q: usize = 0;
        while q < ast_ifaces.len()
            invariant
                ast_ifaces@.map_values(|x: &ast::Interface| *x) == interfaces_of(p.items@),
                q <= ast_ifaces@.len(),
                interfaces@.len() == q,
                forall|k: int| 0 <= k < q ==> interfaces@[k].name == interfaces_of(p.items@)[k].name,
            decreases ast_ifaces.len() - q,
        {
            let iface = ast_ifaces[q];
            proof {
                assert(*iface == interfaces_of(p.items@)[q as int]);
            }
            interfaces.push(Interface { name: &iface.name });
            q += 1;
        }
        Ok(Program { classes, interfaces })
    }
}

proof fn lemma_first_duplicate_stays(cs: Seq<ast::Class>, n: int, k: int)
    requires
        1 <= n <= k,
        first_duplicate(cs, n) is Some,
    ensures
        first_duplicate(cs, k) == first_duplicate(cs, n),
    decreases k - n,
{
    if k > n {
        lemma_first_duplicate_stays(cs, n, k - 1);
    }
}

proof fn lemma_first_duplicate_iff(cs: Seq<ast::Class>, n: int)
    requires
        0 <= n <= cs.len(),
    ensures
        first_duplicate(cs, n) is Some <==> exists|i: int, j: int|
            0 <= i < j < n && #[trigger] cs[i].name@ == #[trigger] cs[j].name@,
    decreases n,
{
    if n > 0 {
        lemma_first_duplicate_iff(cs, n - 1);
        if first_duplicate(cs, n) is Some && first_duplicate(cs, n - 1) is None {
            let i = choose|i: int| 0 <= i < n - 1 && #[trigger] cs[i].name@ == cs[n - 1].name@;
            assert(cs[i].name@ == cs[n - 1].name@);
        }
    }
}

proof fn lemma_first_duplicate_at(cs: Seq<ast::Class>, n: int)
    requires
        0 <= n <= cs.len(),
    ensures
        first_duplicate(cs, n) is Some ==> {
            let d = first_duplicate(cs, n)->Some_0;
            0 <= d < n && exists|e: int| 0 <= e < d && #[trigger] cs[e].name@ == cs[d].name@
        },
    decreases n,
{
    if n > 0 {
        lemma_first_duplicate_at(cs, n - 1);
    }
}

proof fn lemma_apply_impls_names<'a>(cs: Seq<ClassView<'a>>, impls: Seq<ast::Impl>, n: int)
    requires
        apply_impls(cs, impls, n) is Ok,
    ensures
        apply_impls(cs, impls, n)->Ok_0.len() == cs.len(),
        forall|k: int| 0 <= k < cs.len() ==> (#[trigger] apply_impls(cs, impls, n)->Ok_0[k]).name == cs[k].name,
    decreases n,
{
    if n > 0 {
        lemma_apply_impls_names(cs, impls, n - 1);
        let c = apply_impls(cs, impls, n - 1)->Ok_0;
        lemma_find_class_bounds(c, impls[n - 1].self_path@);
    }
}

/// A program whose classes have unique names has exactly one model entry for
/// each of them, in declaration order; a repeated name is refused with
/// `DuplicateClass` naming a class whose name an earlier class already has.
pub proof fn lemma_class_count<'a>(p: &'a ast::Program)
    ensures
        has_duplicate_names(classes_of(p.items@)) ==> exists|i: int, j: int|
            0 <= i < j < classes_of(p.items@).len()
            && #[trigger] classes_of(p.items@)[i].name@ == #[trigger] classes_of(p.items@)[j].name@
            && model_of(p) == Err::<Seq<ClassView<'a>>, Error>(Error::DuplicateClass(classes_of(p.items@)[j].name)),
        model_of(p) is Ok ==> !has_duplicate_names(classes_of(p.items@))
            && model_of(p)->Ok_0.len() == classes_of(p.items@).len()
            && forall|k: int| 0 <= k < classes_of(p.items@).len() ==>
                (#[trigger] model_of(p)->Ok_0[k]).name == classes_of(p.items@)[k].name,
{
    let cs = classes_of(p.items@);
    lemma_first_duplicate_iff(cs, cs.len() as int);
    if has_duplicate_names(cs) {
        let (i, j) = choose|i: int, j: int| 0 <= i < j < cs.len() && cs[i].name@ == cs[j].name@;
        assert(cs[i].name@ == cs[j].name@);
        lemma_first_duplicate_at(cs, cs.len() as int);
        let d = first_duplicate(cs, cs.len() as int)->Some_0;
        let e = choose|e: int| 0 <= e < d && #[trigger] cs[e].name@ == cs[d].name@;
        assert(cs[e].name@ == cs[d].name@);
    }
    if model_of(p) is Ok {
        lemma_apply_impls_names(initial_classes(cs), impls_of(p.items@), impls_of(p.items@).len() as int);
        if has_duplicate_names(cs) {
            let (i, j) = choose|i: int, j: int| 0 <= i < j < cs.len() && cs[i].name@ == cs[j].name@;
            assert(cs[i].name@ == cs[j].name@);
        }
    }
}

/// The runtime type identifier of a type, where the object system has one for
/// it: 16-bit and pointer-width integers, references and owned types have none.
pub open spec fn gtype_name(t: Ty) -> Option<Seq<char>> {
    match t {
        Ty::Unit => Some("gobject_sys::G_TYPE_NONE"@),
        Ty::Char => Some("gobject_sys::G_TYPE_UINT"@),
        Ty::Bool => Some("gobject_sys::G_TYPE_BOOLEAN"@),
        Ty::Integer(k) => match k {
            IntTy::I8 => Some("gobject_sys::G_TYPE_CHAR"@),
            IntTy::I32 => Some("gobject_sys::G_TYPE_INT"@),
            IntTy::I64 => Some("gobject_sys::G_TYPE_INT64"@),
            IntTy::U8 => Some("gobject_sys::G_TYPE_UCHAR"@),
            IntTy::U32 => Some("gobject_sys::G_TYPE_UINT"@),
            IntTy::U64 => Some("gobject_sys::G_TYPE_UINT64"@),
            _ => None,
        },
        _ => None,
    }
}

/// Whether values of type `t` can cross the ABI boundary: owned types and
/// 16-bit or pointer-width integers cannot.
pub open spec fn marshalable(t: Ty) -> bool {
    match t {
        Ty::Owned(_) => false,
        Ty::Integer(k) => gtype_name(t) is Some,
        _ => true,
    }
}

impl<'ast> Ty<'ast> {
    /// The runtime type identifier of this type, or `None` where it has none.
    pub fn to_gtype_string(&self) -> (r: Option<&'static str>)
        ensures
            match r {
                Some(s) => gtype_name(*self) == Some(s@),
                None => gtype_name(*self) is None,
            },
    {
        match self {
            Ty::Unit => Some("gobject_sys::G_TYPE_NONE"),
            Ty::Char => Some("gobject_sys::G_TYPE_UINT"),
            Ty::Bool => Some("gobject_sys::G_TYPE_BOOLEAN"),
            Ty::Integer(k) => match k {
                IntTy::I8 => Some("gobject_sys::G_TYPE_CHAR"),
                IntTy::I32 => Some("gobject_sys::G_TYPE_INT"),
                IntTy::I64 => Some("gobject_sys::G_TYPE_INT64"),
                IntTy::U8 => Some("gobject_sys::G_TYPE_UCHAR"),
                IntTy::U32 => Some("gobject_sys::G_TYPE_UINT"),
                IntTy::U64 => Some("gobject_sys::G_TYPE_UINT64"),
                _ => None,
            },
            _ => None,
        }
    }

    /// Whether values of this type can cross the ABI boundary.
    pub fn is_marshalable(&self) -> (r: bool)
        ensures
            r == marshalable(*self),
    {
        match self {
            Ty::Owned(_) => false,
            Ty::Integer(_) => self.to_gtype_string().is_some(),
            _ => true,
        }
    }
}

/// Builds the model of a program that declares one class `name`, with the
/// parent `parent`, and checks that it holds that class under that parent.
fn single_class_model(name: &str, parent: Option<&str>) -> (r: bool)
    ensures
        r,
{
    let extends = match parent {
        Some(p) => Some(ast::Path {
            leading_colon: false,
            segments: vec![ast::PathSegment { ident: String::from_str(p), has_arguments: false }],
        }),
        None => None,
    };
    let program = ast::Program {
        items: vec![ast::Item::Class(ast::Class { name: String::from_str(name), extends, fields: Vec::new() })],
    };
    proof {
        let items = program.items@;
        assert(items.len() == 1);
        assert(items[0] is Class);
        assert(items.drop_last() =~= Seq::<ast::Item>::empty());
        assert(classes_of(items.drop_last()) == Seq::<ast::Class>::empty());
        assert(impls_of(items.drop_last()) == Seq::<ast::Impl>::empty());
        assert(classes_of(items) =~= seq![items[0]->Class_0]);
        assert(impls_of(items) =~= Seq::<ast::Impl>::empty());
        assert(first_duplicate(classes_of(items), 0) is None);
        assert(first_duplicate(classes_of(items), 1) is None);
        assert(apply_impls(initial_classes(classes_of(items)), impls_of(items), 0) is Ok);
    }
    let expected_parent = match parent {
        Some(p) => String::from_str(p),
        None => String::from_str("glib::Object"),
    };
    match Program::from_ast_program(&program) {
        Ok(model) => {
            if model.classes.len() != 1 {
                return false;
            }
            let class = &model.classes.items[0];
            let cx = crate::gen::class::ClassContext::new(&model, class);
            proof {
                let cs = classes_of(program.items@);
                let v = initial_classes(cs);
                assert(model_of(&program) == Ok::<Seq<ClassView>, Error>(v));
                assert(model.classes@ == v);
                assert(class@ == model.classes@[0]);
                assert(class@ == class_init(&cs[0]));
                assert(cs[0] == program.items@[0]->Class_0);
                if let Some(p) = class.extends {
                    assert(p.segments@.len() == 1);
                    assert(p.segments@.map_values(|s: ast::PathSegment| s.ident@) =~= seq![p.segments@[0].ident@]);
                }
            }
            str_eq(class.name.as_str(), name) && str_eq(cx.parent_instance.as_str(), expected_parent.as_str())
        },
        Err(_) => false,
    }
}

/// Checks the model builder and the type mapper on fixed inputs: a class
/// without a parent, a class with one, and the runtime type identifiers.
pub fn run() -> (r: bool)
    ensures
        r,
{
    let trivial = single_class_model("Foo", None);
    let with_superclass = single_class_model("Foo", Some("Bar"));
    trivial && with_superclass && maps_ty_to_gtype()
}

fn gtype_is(t: Ty, expected: &str) -> (r: bool)
    ensures
        r == (gtype_name(t) == Some(expected@)),
{
    match t.to_gtype_string() {
        Some(s) => str_eq(s, expected),
        None => false,
    }
}

fn maps_ty_to_gtype() -> (r: bool)
    ensures
        r,
{
    gtype_is(Ty::Unit, "gobject_sys::G_TYPE_NONE")
        && gtype_is(Ty::Char, "gobject_sys::G_TYPE_UINT")
        && gtype_is(Ty::Bool, "gobject_sys::G_TYPE_BOOLEAN")
        && gtype_is(Ty::Integer(IntTy::I8), "gobject_sys::G_TYPE_CHAR")
        && gtype_is(Ty::Integer(IntTy::I32), "gobject_sys::G_TYPE_INT")
        && gtype_is(Ty::Integer(IntTy::I64), "gobject_sys::G_TYPE_INT64")
        && gtype_is(Ty::Integer(IntTy::U8), "gobject_sys::G_TYPE_UCHAR")
        && gtype_is(Ty::Integer(IntTy::U32), "gobject_sys::G_TYPE_UINT")
        && gtype_is(Ty::Integer(IntTy::U64), "gobject_sys::G_TYPE_UINT64")
}

} // verus!
