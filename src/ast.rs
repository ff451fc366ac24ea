//! The syntax tree that the front end hands to the compiler core.
//!
//! Names are plain strings; method bodies, getter and setter blocks and the
//! types of private fields are kept as their source text, which the code
//! generator copies through unchanged.
use vstd::prelude::*;

verus! {

pub struct Program {
    pub items: Vec<Item>,
}

pub enum Item {
    Class(Class),
    Impl(Impl),
    Interface(Interface),
}

/// `class Name [: Parent] { field: Type, ... }`
pub struct Class {
    pub name: String,
    pub extends: Option<Path>,
    pub fields: Vec<Field>,
}

/// A private instance field: its name and the source text of its type.
pub struct Field {
    pub name: String,
    pub ty: String,
}

/// A path such as `Foo`, `gtk::Widget` or `::std::string::String`.
pub struct Path {
    pub leading_colon: bool,
    pub segments: Vec<PathSegment>,
}

/// One segment of a path, and whether it carries `<...>` or `(...)` arguments.
pub struct PathSegment {
    pub ident: String,
    pub has_arguments: bool,
}

/// The shapes of source types that a signature may hold.
pub enum TypeExpr {
    Slice,
    Array,
    Ptr,
    Reference { has_lifetime: bool, mutable: bool, elem: Box<TypeExpr> },
    BareFn,
    Never,
    /// A tuple with this many elements.
    Tuple(usize),
    Path { qualified_self: bool, path: Path },
    TraitObject,
    ImplTrait,
    Paren(Box<TypeExpr>),
    Group(Box<TypeExpr>),
    Infer,
    Macro,
    Verbatim,
}

/// The pattern of a named argument.
pub enum Pat {
    Ident { by_ref: bool, mutable: bool, name: String, has_subpattern: bool },
    Other,
}

/// One parameter of a method, as written.
pub enum FnArg {
    SelfRef { has_lifetime: bool, mutable: bool },
    SelfValue,
    Captured { pat: Pat, ty: TypeExpr },
    Inferred,
    Ignored,
}

pub enum ReturnType {
    Default,
    Type(TypeExpr),
}

/// `interface Name { ... }`
pub struct Interface {
    pub name: String,
    pub items: Vec<ImplItem>,
}

/// `impl [interface] [Parent for] Name { ... }`
pub struct Impl {
    pub is_interface: bool,
    pub trait_: Option<String>,
    pub self_path: String,
    pub items: Vec<ImplItem>,
}

pub struct ImplItem {
    pub node: ImplItemKind,
}

pub enum ImplItemKind {
    Method(ImplItemMethod),
    Prop(ImplProp),
    /// `reserve_slots(n)`
    ReserveSlots(u64),
}

/// `[pub] [virtual] [signal] fn name(&self, arg: Type, ...) [-> Type] { body } | ;`
pub struct ImplItemMethod {
    pub public: bool,
    pub virtual_: bool,
    pub signal: bool,
    pub name: String,
    pub inputs: Vec<FnArg>,
    pub output: ReturnType,
    pub body: Option<String>,
}

/// `property Name: T where T: Type { get(&self) -> T { ... } set(&self, v: T) { ... } }`
pub struct ImplProp {
    pub name: String,
    pub type_: TypeExpr,
    pub items: Vec<ImplPropBlock>,
}

pub enum ImplPropBlock {
    Getter(String),
    Setter(ImplPropSetter),
}

pub struct ImplPropSetter {
    pub param: String,
    pub block: String,
}

/// `type = Path;`
pub struct InstancePrivateItem {
    pub path: Path,
}

/// The class declarations among `items`, in order.
pub open spec fn classes_of(items: Seq<Item>) -> Seq<Class>
    decreases items.len(),
{
    if items.len() == 0 {
        Seq::empty()
    } else {
        let rest = classes_of(items.drop_last());
        match items.last() {
            Item::Class(c) => rest.push(c),
            _ => rest,
        }
    }
}

/// The impl blocks among `items`, in order.
pub open spec fn impls_of(items: Seq<Item>) -> Seq<Impl>
    decreases items.len(),
{
    if items.len() == 0 {
        Seq::empty()
    } else {
        let rest = impls_of(items.drop_last());
        match items.last() {
            Item::Impl(i) => rest.push(i),
            _ => rest,
        }
    }
}

/// The interface declarations among `items`, in order.
pub open spec fn interfaces_of(items: Seq<Item>) -> Seq<Interface>
    decreases items.len(),
{
    if items.len() == 0 {
        Seq::empty()
    } else {
        let rest = interfaces_of(items.drop_last());
        match items.last() {
            Item::Interface(i) => rest.push(i),
            _ => rest,
        }
    }
}

impl Program {
    pub fn classes(&self) -> (r: Vec<&Class>)
        ensures
            r@.map_values(|x: &Class| *x) == classes_of(self.items@),
    {
        let mut r: Vec<&Class> = Vec::new();
        let mut i: usize = 0;
        while i < self.items.len()
            invariant
                i <= self.items.len(),
                r@.map_values(|x: &Class| *x) == classes_of(self.items@.subrange(0, i as int)),
            decreases self.items.len() - i,
        {
            proof {
                assert(self.items@.subrange(0, i + 1).drop_last() == self.items@.subrange(0, i as int));
            }
            match &self.items[i] {
                Item::Class(c) => r.push(c),
                _ => {},
            }
            i += 1;
        }
        proof {
            assert(self.items@.subrange(0, i as int) == self.items@);
        }
        r
    }

    pub fn impls(&self) -> (r: Vec<&Impl>)
        ensures
            r@.map_values(|x: &Impl| *x) == impls_of(self.items@),
    {
        let mut r: Vec<&Impl> = Vec::new();
        let mut i: usize = 0;
        while i < self.items.len()
            invariant
                i <= self.items.len(),
                r@.map_values(|x: &Impl| *x) == impls_of(self.items@.subrange(0, i as int)),
            decreases self.items.len() - i,
        {
            proof {
                assert(self.items@.subrange(0, i + 1).drop_last() == self.items@.subrange(0, i as int));
            }
            match &self.items[i] {
                Item::Impl(c) => r.push(c),
                _ => {},
            }
            i += 1;
        }
        proof {
            assert(self.items@.subrange(0, i as int) == self.items@);
        }
        r
    }

    pub fn interfaces(&self) -> (r: Vec<&Interface>)
        ensures
            r@.map_values(|x: &Interface| *x) == interfaces_of(self.items@),
    {
        let mut r: Vec<&Interface> = Vec::new();
        let mut i: usize = 0;
        while i < self.items.len()
            invariant
                i <= self.items.len(),
                r@.map_values(|x: &Interface| *x) == interfaces_of(self.items@.subrange(0, i as int)),
            decreases self.items.len() - i,
        {
            proof {
                assert(self.items@.subrange(0, i + 1).drop_last() == self.items@.subrange(0, i as int));
            }
            match &self.items[i] {
                Item::Interface(c) => r.push(c),
                _ => {},
            }
            i += 1;
        }
        proof {
            assert(self.items@.subrange(0, i as int) == self.items@);
        }
        r
    }
}

/// The class declarations of `program`, in order.
pub fn get_program_classes(program: &Program) -> (r: Vec<&Class>)
    ensures
        r@.map_values(|x: &Class| *x) == classes_of(program.items@),
{
    program.classes()
}

/// The index of the first getter block among `items`, if any.
pub open spec fn first_getter(items: Seq<ImplPropBlock>) -> Option<int>
    decreases items.len(),
{
    if items.len() == 0 {
        None
    } else if items[0] is Getter {
        Some(0)
    } else {
        match first_getter(items.drop_first()) {
            Some(i) => Some(i + 1),
            None => None,
        }
    }
}

/// The index of the first setter block among `items`, if any.
pub open spec fn first_setter(items: Seq<ImplPropBlock>) -> Option<int>
    decreases items.len(),
{
    if items.len() == 0 {
        None
    } else if items[0] is Setter {
        Some(0)
    } else {
        match first_setter(items.drop_first()) {
            Some(i) => Some(i + 1),
            None => None,
        }
    }
}

impl ImplProp {
    /// The first getter block of the property.
    pub fn getter(&self) -> (r: Option<&ImplPropBlock>)
        ensures
            match first_getter(self.items@) {
                Some(i) => r == Some(&self.items@[i]),
                None => r is None,
            },
    {
        let mut i: usize = 0;
        while i < self.items.len()
            invariant
                i <= self.items.len(),
                forall|k: int| 0 <= k < i ==> !(self.items@[k] is Getter),
            decreases self.items.len() - i,
        {
            if let ImplPropBlock::Getter(_) = &self.items[i] {
                proof { lemma_first_getter_at(self.items@, i as int); }
                return Some(&self.items[i]);
            }
            i += 1;
        }
        proof { lemma_first_getter_at(self.items@, i as int); }
        None
    }

    /// The first setter block of the property.
    pub fn setter(&self) -> (r: Option<&ImplPropBlock>)
        ensures
            match first_setter(self.items@) {
                Some(i) => r == Some(&self.items@[i]),
                None => r is None,
            },
    {
        let mut i: usize = 0;
        while i < self.items.len()
            invariant
                i <= self.items.len(),
                forall|k: int| 0 <= k < i ==> !(self.items@[k] is Setter),
            decreases self.items.len() - i,
        {
            if let ImplPropBlock::Setter(_) = &self.items[i] {
                proof { lemma_first_setter_at(self.items@, i as int); }
                return Some(&self.items[i]);
            }
            i += 1;
        }
        proof { lemma_first_setter_at(self.items@, i as int); }
        None
    }
}

proof fn lemma_first_getter_at(items: Seq<ImplPropBlock>, i: int)
    requires
        0 <= i <= items.len(),
        forall|k: int| 0 <= k < i ==> !(items[k] is Getter),
    ensures
        i < items.len() && items[i] is Getter ==> first_getter(items) == Some(i),
        i == items.len() ==> first_getter(items) is None,
    decreases i,
{
    if i > 0 {
        lemma_first_getter_at(items.drop_first(), i - 1);
    } else if items.len() > 0 {
    }
}

proof fn lemma_first_setter_at(items: Seq<ImplPropBlock>, i: int)
    requires
        0 <= i <= items.len(),
        forall|k: int| 0 <= k < i ==> !(items[k] is Setter),
    ensures
        i < items.len() && items[i] is Setter ==> first_setter(items) == Some(i),
        i == items.len() ==> first_setter(items) is None,
    decreases i,
{
    if i > 0 {
        lemma_first_setter_at(items.drop_first(), i - 1);
    }
}

} // verus!
