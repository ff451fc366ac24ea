//! The text of types and argument lists, on the source side and on the ABI side.
use vstd::prelude::*;
use vstd::string::*;
use crate::ast;
use crate::glib_utils::{join, join_with};
use crate::hir::{gtype_name, marshalable, FnArg, FnSig, IntTy, SigView, Ty};

verus! {

pub open spec fn int_name(k: IntTy) -> Seq<char> {
    match k {
        IntTy::I8 => "i8"@,
        IntTy::I16 => "i16"@,
        IntTy::I32 => "i32"@,
        IntTy::I64 => "i64"@,
        IntTy::Isize => "isize"@,
        IntTy::U8 => "u8"@,
        IntTy::U16 => "u16"@,
        IntTy::U32 => "u32"@,
        IntTy::U64 => "u64"@,
        IntTy::Usize => "usize"@,
    }
}

pub fn int_name_str(k: IntTy) -> (r: &'static str)
    ensures
        r@ == int_name(k),
{
    match k {
        IntTy::I8 => "i8",
        IntTy::I16 => "i16",
        IntTy::I32 => "i32",
        IntTy::I64 => "i64",
        IntTy::Isize => "isize",
        IntTy::U8 => "u8",
        IntTy::U16 => "u16",
        IntTy::U32 => "u32",
        IntTy::U64 => "u64",
        IntTy::Usize => "usize",
    }
}

/// The text of a path: its segments joined by `::`.
pub open spec fn path_text(p: &ast::Path) -> Seq<char> {
    (if p.leading_colon { "::"@ } else { Seq::empty() })
        + join_with(p.segments@.map_values(|s: ast::PathSegment| s.ident@), "::"@)
}

pub fn path_string(p: &ast::Path) -> (r: String)
    ensures
        r@ == path_text(p),
{
    let mut idents: Vec<String> = Vec::new();
    let mut i: usize = 0;
    while i < p.segments.len()
        invariant
            i <= p.segments@.len(),
            idents@.map_values(|s: String| s@) =~= p.segments@.subrange(0, i as int).map_values(|s: ast::PathSegment| s.ident@),
        decreases p.segments.len() - i,
    {
        let ghost before = idents@.map_values(|s: String| s@);
        idents.push(p.segments[i].ident.clone());
        proof {
            assert(idents@.map_values(|s: String| s@) =~= before.push(p.segments@[i as int].ident@));
            assert(p.segments@.subrange(0, i + 1).map_values(|s: ast::PathSegment| s.ident@)
                =~= p.segments@.subrange(0, i as int).map_values(|s: ast::PathSegment| s.ident@).push(p.segments@[i as int].ident@));
        }
        i += 1;
    }
    proof {
        assert(p.segments@.subrange(0, i as int) =~= p.segments@);
    }
    let joined = join(&idents, "::");
    let mut r = if p.leading_colon { String::from_str("::") } else { String::new() };
    r.append(joined.as_str());
    r
}

/// The source text of a type.
pub open spec fn ty_text(t: Ty) -> Seq<char>
    decreases t,
{
    match t {
        Ty::Unit => "()"@,
        Ty::Char => "char"@,
        Ty::Bool => "bool"@,
        Ty::Borrowed(b) => "&"@ + ty_text(*b),
        Ty::Integer(k) => int_name(k),
        Ty::Owned(p) => path_text(p),
    }
}

pub fn ty_string(t: &Ty) -> (r: String)
    ensures
        r@ == ty_text(*t),
    decreases t,
{
    match t {
        Ty::Unit => String::from_str("()"),
        Ty::Char => String::from_str("char"),
        Ty::Bool => String::from_str("bool"),
        Ty::Borrowed(b) => {
            let mut r = String::from_str("&");
            let inner = ty_string(&**b);
            r.append(inner.as_str());
            r
        },
        Ty::Integer(k) => String::from_str(int_name_str(*k)),
        Ty::Owned(p) => path_string(p),
    }
}

/// The ABI type that a value of type `t` crosses the boundary as. It is
/// asked for marshalable types only (`glib_type_string` requires one); the
/// code generator refuses every other signature before it emits any text.
pub open spec fn glib_type_text(t: Ty) -> Seq<char> {
    match t {
        Ty::Unit => "()"@,
        Ty::Char => "<char as ToGlib>::GlibType"@,
        Ty::Bool => "<bool as ToGlib>::GlibType"@,
        Ty::Borrowed(b) => "<"@ + ty_text(*b) + " as GlibPtrDefault>::GlibType"@,
        Ty::Integer(k) => int_name(k),
        Ty::Owned(_) => "()"@,
    }
}

pub fn glib_type_string(t: &Ty) -> (r: String)
    requires
        marshalable(*t),
    ensures
        r@ == glib_type_text(*t),
{
    match t {
        Ty::Unit => String::from_str("()"),
        Ty::Char => String::from_str("<char as ToGlib>::GlibType"),
        Ty::Bool => String::from_str("<bool as ToGlib>::GlibType"),
        Ty::Borrowed(b) => {
            let mut r = String::from_str("<");
            let inner = ty_string(&**b);
            r.append(inner.as_str());
            r.append(" as GlibPtrDefault>::GlibType");
            r
        },
        Ty::Integer(k) => String::from_str(int_name_str(*k)),
        Ty::Owned(_) => String::from_str("()"),
    }
}

/// The expression `e` of type `t`, converted to its ABI form.
pub open spec fn to_glib_text(t: Ty, e: Seq<char>) -> Seq<char> {
    match t {
        Ty::Char => "<char as ToGlib>::to_glib(&"@ + e + ")"@,
        Ty::Bool => "<bool as ToGlib>::to_glib(&"@ + e + ")"@,
        Ty::Borrowed(b) => "<"@ + ty_text(*b) + " as ToGlibPtr<_>>::to_glib_none("@ + e + ").0"@,
        _ => e,
    }
}

pub fn to_glib_string(t: &Ty, e: &str) -> (r: String)
    ensures
        r@ == to_glib_text(*t, e@),
{
    match t {
        Ty::Char => {
            let mut r = String::from_str("<char as ToGlib>::to_glib(&");
            r.append(e);
            r.append(")");
            r
        },
        Ty::Bool => {
            let mut r = String::from_str("<bool as ToGlib>::to_glib(&");
            r.append(e);
            r.append(")");
            r
        },
        Ty::Borrowed(b) => {
            let mut r = String::from_str("<");
            let inner = ty_string(&**b);
            r.append(inner.as_str());
            r.append(" as ToGlibPtr<_>>::to_glib_none(");
            r.append(e);
            r.append(").0");
            r
        },
        _ => String::from_str(e),
    }
}

/// The ABI-side expression `e`, converted back to type `t`.
pub open spec fn from_glib_text(t: Ty, e: Seq<char>) -> Seq<char> {
    match t {
        Ty::Char => "<char as FromGlib<_>>::from_glib("@ + e + ")"@,
        Ty::Bool => "<bool as FromGlib<_>>::from_glib("@ + e + ")"@,
        Ty::Borrowed(b) => "&<"@ + ty_text(*b) + " as FromGlibPtrBorrow<_>>::from_glib_borrow("@ + e + ")"@,
        _ => e,
    }
}

pub fn from_glib_string(t: &Ty, e: &str) -> (r: String)
    ensures
        r@ == from_glib_text(*t, e@),
{
    match t {
        Ty::Char => {
            let mut r = String::from_str("<char as FromGlib<_>>::from_glib(");
            r.append(e);
            r.append(")");
            r
        },
        Ty::Bool => {
            let mut r = String::from_str("<bool as FromGlib<_>>::from_glib(");
            r.append(e);
            r.append(")");
            r
        },
        Ty::Borrowed(b) => {
            let mut r = String::from_str("&<");
            let inner = ty_string(&**b);
            r.append(inner.as_str());
            r.append(" as FromGlibPtrBorrow<_>>::from_glib_borrow(");
            r.append(e);
            r.append(")");
            r
        },
        _ => String::from_str(e),
    }
}

/// The runtime type identifier of `t`; `G_TYPE_INVALID` where it has none,
/// which the generator never emits since such signatures are refused first.
pub open spec fn gtype_text(t: Ty) -> Seq<char> {
    match gtype_name(t) {
        Some(s) => s,
        None => "gobject_sys::G_TYPE_INVALID"@,
    }
}

pub fn gtype_str(t: &Ty) -> (r: &'static str)
    ensures
        r@ == gtype_text(*t),
{
    match t.to_gtype_string() {
        Some(s) => s,
        None => "gobject_sys::G_TYPE_INVALID",
    }
}

/// Whether the argument `a` can cross the ABI boundary; the receiver always can.
pub open spec fn arg_marshalable(a: FnArg) -> bool {
    match a {
        FnArg::Arg { ty, .. } => marshalable(ty),
        FnArg::SelfRef => true,
    }
}

/// Whether the return value and the parameters after the receiver of `s` can
/// cross the ABI boundary.
pub open spec fn sig_marshalable(s: SigView) -> bool {
    &&& marshalable(s.output)
    &&& forall|i: int| 1 <= i < s.inputs.len() ==> arg_marshalable(#[trigger] s.inputs[i])
}

/// The ways an argument list is written out.
#[derive(Clone, Copy, Debug, PartialEq, Eq, Structural)]
pub enum ArgForm {
    /// `&self, a: u32, ` as in a Rust signature.
    Decl,
    /// `u32, ` as in an `Fn(&Self, ...)` type.
    Types,
    /// `a: u32, ` with ABI types, for an `extern "C"` prototype.
    WithGlibTypes,
    /// `a, ` converted from the ABI form.
    FromGlib,
    /// `a, ` converted to the ABI form.
    ToGlib,
    /// `(&a as &glib::ToValue).to_value(), ` boxed in generic values.
    ToValues,
    /// `a, ` as they are.
    Names,
    /// `gobject_sys::G_TYPE_UINT, ` the runtime type identifiers.
    GTypes,
}

/// What one argument contributes to a list of form `f`.
pub open spec fn arg_piece(f: ArgForm, a: FnArg) -> Seq<char> {
    match a {
        FnArg::SelfRef => match f {
            ArgForm::Decl => "&self, "@,
            ArgForm::ToValues => "(self as &glib::ToValue).to_value(), "@,
            _ => Seq::empty(),
        },
        FnArg::Arg { mutbl, name, ty } => match f {
            ArgForm::Decl => (if mutbl { "mut "@ } else { Seq::empty() }) + name@ + ": "@ + ty_text(ty) + ", "@,
            ArgForm::Types => ty_text(ty) + ", "@,
            ArgForm::WithGlibTypes => name@ + ": "@ + glib_type_text(ty) + ", "@,
            ArgForm::FromGlib => from_glib_text(ty, name@) + ", "@,
            ArgForm::ToGlib => to_glib_text(ty, name@) + ", "@,
            ArgForm::ToValues => "(&"@ + name@ + " as &glib::ToValue).to_value(), "@,
            ArgForm::Names => name@ + ", "@,
            ArgForm::GTypes => gtype_text(ty) + ", "@,
        },
    }
}

fn arg_piece_string(f: ArgForm, a: &FnArg) -> (r: String)
    requires
        f == ArgForm::WithGlibTypes ==> arg_marshalable(*a),
    ensures
        r@ == arg_piece(f, *a),
{
    match a {
        FnArg::SelfRef => match f {
            ArgForm::Decl => String::from_str("&self, "),
            ArgForm::ToValues => String::from_str("(self as &glib::ToValue).to_value(), "),
            _ => String::new(),
        },
        FnArg::Arg { mutbl, name, ty } => match f {
            ArgForm::Decl => {
                let mut r = if *mutbl { String::from_str("mut ") } else { String::new() };
                r.append(name.as_str());
                r.append(": ");
                let t = ty_string(ty);
                r.append(t.as_str());
                r.append(", ");
                r
            },
            ArgForm::Types => {
                let mut r = ty_string(ty);
                r.append(", ");
                r
            },
            ArgForm::WithGlibTypes => {
                let mut r = String::from_str(name.as_str());
                r.append(": ");
                let t = glib_type_string(ty);
                r.append(t.as_str());
                r.append(", ");
                r
            },
            ArgForm::FromGlib => {
                let mut r = from_glib_string(ty, name.as_str());
                r.append(", ");
                r
            },
            ArgForm::ToGlib => {
                let mut r = to_glib_string(ty, name.as_str());
                r.append(", ");
                r
            },
            ArgForm::ToValues => {
                let mut r = String::from_str("(&");
                r.append(name.as_str());
                r.append(" as &glib::ToValue).to_value(), ");
                r
            },
            ArgForm::Names => {
                let mut r = String::from_str(name.as_str());
                r.append(", ");
                r
            },
            ArgForm::GTypes => {
                let mut r = String::from_str(gtype_str(ty));
                r.append(", ");
                r
            },
        },
    }
}

/// The list of form `f` of the arguments `args`.
pub open spec fn args_text(f: ArgForm, args: Seq<FnArg>) -> Seq<char>
    decreases args.len(),
{
    if args.len() == 0 {
        Seq::empty()
    } else {
        args_text(f, args.drop_last()) + arg_piece(f, args.last())
    }
}

/// The arguments of `args` from index `from` on.
pub open spec fn args_from<'a>(args: Seq<FnArg<'a>>, from: int) -> Seq<FnArg<'a>> {
    if from <= args.len() {
        args.subrange(from, args.len() as int)
    } else {
        Seq::empty()
    }
}

pub fn args_string_from(f: ArgForm, args: &Vec<FnArg>, from: usize) -> (r: String)
    requires
        f == ArgForm::WithGlibTypes ==> forall|i: int| from <= i < args@.len() ==> arg_marshalable(#[trigger] args@[i]),
    ensures
        r@ == args_text(f, args_from(args@, from as int)),
{
    let mut r = String::new();
    if from > args.len() {
        return r;
    }
    let mut i: usize = from;
    while i < args.len()
        invariant
            from <= i <= args@.len(),
            f == ArgForm::WithGlibTypes ==> forall|k: int| from <= k < args@.len() ==> arg_marshalable(#[trigger] args@[k]),
            r@ == args_text(f, args@.subrange(from as int, i as int)),
        decreases args.len() - i,
    {
        proof {
            assert(args@.subrange(from as int, i + 1).drop_last() =~= args@.subrange(from as int, i as int));
        }
        let piece = arg_piece_string(f, &args[i]);
        r.append(piece.as_str());
        i += 1;
    }
    r
}

/// The list of form `f` of the arguments of `sig` after the receiver.
pub open spec fn sig_args_text(f: ArgForm, sig: SigView) -> Seq<char> {
    args_text(f, args_from(sig.inputs, 1))
}

impl<'ast> FnSig<'ast> {
    /// The ABI type of the return value.
    pub fn output_glib_type(&self) -> (r: String)
        requires
            sig_marshalable(self@),
        ensures
            r@ == glib_type_text(self.output),
    {
        glib_type_string(&self.output)
    }

    /// The parameter list as declared, receiver included.
    pub fn decl_inputs(&self) -> (r: String)
        ensures
            r@ == args_text(ArgForm::Decl, self.inputs@),
    {
        proof {
            assert(args_from(self.inputs@, 0) =~= self.inputs@);
        }
        args_string_from(ArgForm::Decl, &self.inputs, 0)
    }

    /// The types of the parameters after the receiver.
    pub fn input_arg_types(&self) -> (r: String)
        ensures
            r@ == sig_args_text(ArgForm::Types, self@),
    {
        args_string_from(ArgForm::Types, &self.inputs, 1)
    }

    /// The parameters after the receiver, with their ABI types.
    pub fn input_args_with_glib_types(&self) -> (r: String)
        requires
            sig_marshalable(self@),
        ensures
            r@ == sig_args_text(ArgForm::WithGlibTypes, self@),
    {
        proof {
            assert forall|i: int| 1 <= i < self.inputs@.len() implies arg_marshalable(#[trigger] self.inputs@[i]) by {
                assert(self@.inputs[i] == self.inputs@[i]);
            }
        }
        args_string_from(ArgForm::WithGlibTypes, &self.inputs, 1)
    }

    /// The parameters after the receiver, converted from their ABI forms.
    pub fn input_args_from_glib_types(&self) -> (r: String)
        ensures
            r@ == sig_args_text(ArgForm::FromGlib, self@),
    {
        args_string_from(ArgForm::FromGlib, &self.inputs, 1)
    }

    /// The parameters after the receiver, converted to their ABI forms.
    pub fn input_args_to_glib_types(&self) -> (r: String)
        ensures
            r@ == sig_args_text(ArgForm::ToGlib, self@),
    {
        args_string_from(ArgForm::ToGlib, &self.inputs, 1)
    }

    /// All parameters, receiver included, boxed in generic values.
    pub fn input_args_to_glib_values(&self) -> (r: String)
        ensures
            r@ == args_text(ArgForm::ToValues, self.inputs@),
    {
        proof {
            assert(args_from(self.inputs@, 0) =~= self.inputs@);
        }
        args_string_from(ArgForm::ToValues, &self.inputs, 0)
    }

    /// The names of the parameters after the receiver.
    pub fn input_arg_names(&self) -> (r: String)
        ensures
            r@ == sig_args_text(ArgForm::Names, self@),
    {
        args_string_from(ArgForm::Names, &self.inputs, 1)
    }

    /// The return value `e` converted to its ABI form.
    pub fn ret_to_glib(&self, e: &str) -> (r: String)
        ensures
            r@ == to_glib_text(self.output, e@),
    {
        to_glib_string(&self.output, e)
    }

    /// The ABI-side return value `e` converted back to the return type.
    pub fn ret_from_glib_fn(&self, e: &str) -> (r: String)
        ensures
            r@ == from_glib_text(self.output, e@),
    {
        from_glib_string(&self.output, e)
    }
}

} // verus!
