//! The class-struct layout of each class: the parent's class struct, then one
//! pointer-sized slot per virtual method or signal, in declaration order.
use vstd::prelude::*;
use crate::errors::{ContextProblem, Error, Result};
use crate::glib_utils::str_eq;
use crate::hir::{find_class, lemma_find_class_bounds, Class, ClassView, Classes, SlotKind, SlotView};

verus! {

/// One slot of a class struct: the class that declares it, its name and kind.
pub struct LayoutSlot<'ast> {
    pub owner: &'ast String,
    pub name: &'ast String,
    pub kind: SlotKind,
}

/// The slots of a class struct after its external root's own class struct,
/// from the outermost ancestor in the program down to the class itself.
pub struct ClassLayout<'ast> {
    pub slots: Vec<LayoutSlot<'ast>>,
}

/// Where an override is installed: the `index`-th slot of the class struct,
/// which lies in the ancestor's part of it. `None` for an ancestor outside
/// the program, whose layout is not known here.
pub struct OverrideTarget<'ast> {
    pub ancestor: &'ast String,
    pub method: &'ast String,
    pub index: Option<usize>,
}

/// The slots that the slots `ss` of the class `owner` add to its class struct.
pub open spec fn vtable_slots<'a>(owner: &'a String, ss: Seq<SlotView<'a>>) -> Seq<LayoutSlot<'a>>
    decreases ss.len(),
{
    if ss.len() == 0 {
        Seq::empty()
    } else {
        let rest = vtable_slots(owner, ss.drop_last());
        let s = ss.last();
        if s.kind == SlotKind::Method {
            rest
        } else {
            rest.push(LayoutSlot { owner: owner, name: s.sig.name, kind: s.kind })
        }
    }
}

/// The slots that class `c` adds to its parent's class struct. Overrides add none.
pub open spec fn own_slots<'a>(c: ClassView<'a>) -> Seq<LayoutSlot<'a>> {
    vtable_slots(c.name, c.slots)
}

/// The name of the parent of `c`, where it is a plain name that a class of
/// the program could have.
pub open spec fn parent_name(c: ClassView) -> Option<Seq<char>> {
    match c.extends {
        Some(p) => if !p.leading_colon && p.segments@.len() == 1 {
            Some(p.segments@[0].ident@)
        } else {
            None
        },
        None => None,
    }
}

/// The index of the parent of `c` in `cs`, where the parent is a class of the program.
pub open spec fn parent_index(cs: Seq<ClassView>, c: ClassView) -> Option<int> {
    match parent_name(c) {
        Some(n) => find_class(cs, n),
        None => None,
    }
}

/// The class-struct slots of the class `name`, following at most `fuel` links
/// of the inheritance chain; `None` where it is not found or the chain is longer.
pub open spec fn layout_of<'a>(cs: Seq<ClassView<'a>>, name: Seq<char>, fuel: nat) -> Option<Seq<LayoutSlot<'a>>>
    decreases fuel,
{
    if fuel == 0 {
        None
    } else {
        match find_class(cs, name) {
            None => None,
            Some(k) => match parent_index(cs, cs[k]) {
                None => Some(own_slots(cs[k])),
                Some(pk) => match layout_of(cs, cs[pk].name@, (fuel - 1) as nat) {
                    Some(l) => Some(l + own_slots(cs[k])),
                    None => None,
                },
            },
        }
    }
}

/// The class-struct slots of the class `name`; `None` where no such class is
/// declared or it is its own ancestor.
pub open spec fn class_layout<'a>(cs: Seq<ClassView<'a>>, name: Seq<char>) -> Option<Seq<LayoutSlot<'a>>> {
    layout_of(cs, name, cs.len())
}

/// The size of a class struct: the external root's, then one pointer per slot.
pub open spec fn class_struct_size(root_size: nat, pointer_size: nat, slots: nat) -> nat {
    root_size + slots * pointer_size
}

/// More fuel changes no layout that was found.
pub proof fn lemma_layout_fuel<'a>(cs: Seq<ClassView<'a>>, name: Seq<char>, f: nat, g: nat)
    requires
        f <= g,
        layout_of(cs, name, f) is Some,
    ensures
        layout_of(cs, name, g) == layout_of(cs, name, f),
    decreases f,
{
    let k = find_class(cs, name)->Some_0;
    lemma_find_class_bounds(cs, name);
    match parent_index(cs, cs[k]) {
        None => {},
        Some(pk) => {
            lemma_layout_fuel(cs, cs[pk].name@, (f - 1) as nat, (g - 1) as nat);
        },
    }
}

/// A class whose parent is a class of the program has the parent's
/// class-struct slots as a prefix, followed by its own slots in declaration
/// order: the parent's slots never move, and the class struct grows by one
/// pointer-sized slot per virtual method or signal that the class declares.
pub proof fn lemma_class_struct_extends_parent<'a>(cs: Seq<ClassView<'a>>, k: int, root_size: nat, pointer_size: nat)
    requires
        0 <= k < cs.len(),
        find_class(cs, cs[k].name@) == Some(k),
        parent_index(cs, cs[k]) is Some,
        class_layout(cs, cs[k].name@) is Some,
    ensures
        ({
            let p = cs[parent_index(cs, cs[k])->Some_0];
            let child = class_layout(cs, cs[k].name@)->Some_0;
            &&& class_layout(cs, p.name@) is Some
            &&& child == class_layout(cs, p.name@)->Some_0 + own_slots(cs[k])
            &&& class_struct_size(root_size, pointer_size, child.len()) == class_struct_size(
                root_size,
                pointer_size,
                class_layout(cs, p.name@)->Some_0.len(),
            ) + own_slots(cs[k]).len() * pointer_size
        }),
{
    let pk = parent_index(cs, cs[k])->Some_0;
    let f = (cs.len() - 1) as nat;
    lemma_layout_fuel(cs, cs[pk].name@, f, cs.len());
    let child = class_layout(cs, cs[k].name@)->Some_0;
    let parent = class_layout(cs, cs[pk].name@)->Some_0;
    assert(child.len() == parent.len() + own_slots(cs[k]).len());
    assert(class_struct_size(root_size, pointer_size, child.len())
        == root_size + (parent.len() + own_slots(cs[k]).len()) * pointer_size);
    assert((parent.len() + own_slots(cs[k]).len()) * pointer_size
        == parent.len() * pointer_size + own_slots(cs[k]).len() * pointer_size) by (nonlinear_arith);
}

/// A class that adds no virtual method or signal has its parent's class
/// struct exactly; its instance struct is its parent's in every case.
pub proof fn lemma_no_slots_same_layout<'a>(cs: Seq<ClassView<'a>>, k: int, root_size: nat, pointer_size: nat)
    requires
        0 <= k < cs.len(),
        find_class(cs, cs[k].name@) == Some(k),
        parent_index(cs, cs[k]) is Some,
        class_layout(cs, cs[k].name@) is Some,
        own_slots(cs[k]).len() == 0,
    ensures
        class_layout(cs, cs[k].name@) == class_layout(cs, cs[parent_index(cs, cs[k])->Some_0].name@),
        class_struct_size(root_size, pointer_size, class_layout(cs, cs[k].name@)->Some_0.len())
            == class_struct_size(root_size, pointer_size,
                class_layout(cs, cs[parent_index(cs, cs[k])->Some_0].name@)->Some_0.len()),
{
    lemma_class_struct_extends_parent(cs, k, root_size, pointer_size);
    let p = cs[parent_index(cs, cs[k])->Some_0];
    assert(class_layout(cs, cs[k].name@)->Some_0 =~= class_layout(cs, p.name@)->Some_0);
}

/// The slots of `class` that its class struct holds, in declaration order.
pub fn own_layout_slots<'ast>(class: &Class<'ast>) -> (r: Vec<LayoutSlot<'ast>>)
    ensures
        r@ == own_slots(class@),
{
    let mut r: Vec<LayoutSlot<'ast>> = Vec::new();
    let mut i: usize = 0;
    let ghost ss = class@.slots;
    while i < class.slots.len()
        invariant
            ss == class@.slots,
            i <= class.slots@.len(),
            r@ == vtable_slots(class.name, ss.subrange(0, i as int)),
        decreases class.slots.len() - i,
    {
        proof {
            assert(ss.subrange(0, i + 1).drop_last() =~= ss.subrange(0, i as int));
        }
        let kind = class.slots[i].kind();
        if kind != SlotKind::Method {
            let sig = class.slots[i].sig();
            r.push(LayoutSlot { owner: class.name, name: sig.name, kind });
        }
        i += 1;
    }
    proof {
        assert(ss.subrange(0, i as int) =~= ss);
    }
    r
}

fn parent_name_of<'ast>(class: &Class<'ast>) -> (r: Option<&'ast String>)
    ensures
        match r {
            Some(n) => parent_name(class@) == Some(n@),
            None => parent_name(class@) is None,
        },
{
    match class.extends {
        Some(p) => if !p.leading_colon && p.segments.len() == 1 {
            Some(&p.segments[0].ident)
        } else {
            None
        },
        None => None,
    }
}

impl<'ast> Classes<'ast> {
    fn layout_rec(&self, name: &str, fuel: usize) -> (r: Option<Vec<LayoutSlot<'ast>>>)
        ensures
            match r {
                Some(v) => layout_of(self@, name@, fuel as nat) == Some(v@),
                None => layout_of(self@, name@, fuel as nat) is None,
            },
        decreases fuel,
    {
        if fuel == 0 {
            return None;
        }
        let k = match self.position(name) {
            Some(k) => k,
            None => return None,
        };
        proof { lemma_find_class_bounds(self@, name@); }
        let class = &self.items[k];
        let own = own_layout_slots(class);
        let pk = match parent_name_of(class) {
            Some(pn) => self.position(pn.as_str()),
            None => None,
        };
        match pk {
            None => Some(own),
            Some(pk) => {
                proof { lemma_find_class_bounds(self@, self@[k as int].extends->Some_0.segments@[0].ident@); }
                match self.layout_rec(self.items[pk].name.as_str(), fuel - 1) {
                    Some(l) => {
                        let mut l = l;
                        let mut own = own;
                        l.append(&mut own);
                        Some(l)
                    },
                    None => None,
                }
            },
        }
    }

    /// The class-struct layout of the class `name`: `None` where no class of
    /// that name is declared, or where it is its own ancestor.
    pub fn class_layout(&self, name: &str) -> (r: Option<ClassLayout<'ast>>)
        ensures
            match r {
                Some(l) => class_layout(self@, name@) == Some(l.slots@),
                None => class_layout(self@, name@) is None,
            },
    {
        match self.layout_rec(name, self.items.len()) {
            Some(v) => Some(ClassLayout { slots: v }),
            None => None,
        }
    }
}

impl<'ast> ClassLayout<'ast> {
    /// The size of the class struct for a root class struct of `root_size`
    /// bytes and pointers of `pointer_size` bytes; `None` where it exceeds `u64`.
    pub fn class_struct_size(&self, root_size: u64, pointer_size: u64) -> (r: Option<u64>)
        ensures
            match r {
                Some(n) => n == class_struct_size(root_size as nat, pointer_size as nat, self.slots@.len()),
                None => class_struct_size(root_size as nat, pointer_size as nat, self.slots@.len()) > u64::MAX,
            },
    {
        let n = self.slots.len() as u64;
        match n.checked_mul(pointer_size) {
            None => {
                proof {
                    assert(n * pointer_size <= root_size + n * pointer_size);
                }
                None
            },
            Some(m) => root_size.checked_add(m),
        }
    }

    /// The size of the instance struct for a root instance struct of
    /// `root_size` bytes: the instance struct embeds its parent's and adds
    /// nothing, since private data lives in a separate block.
    pub fn instance_struct_size(&self, root_size: u64) -> (r: u64)
        ensures
            r == root_size,
    {
        root_size
    }

    /// The number of slots after the root class struct.
    pub fn len(&self) -> (r: usize)
        ensures
            r == self.slots@.len(),
    {
        self.slots.len()
    }
}

/// The index of the first virtual-method slot of `l` that `owner` declares under `name`.
pub open spec fn slot_index(l: Seq<LayoutSlot>, owner: Seq<char>, name: Seq<char>) -> Option<int>
    decreases l.len(),
{
    if l.len() == 0 {
        None
    } else {
        match slot_index(l.drop_last(), owner, name) {
            Some(i) => Some(i),
            None => {
                let s = l.last();
                if s.owner@ == owner && s.name@ == name && s.kind == SlotKind::VirtualMethod {
                    Some(l.len() - 1)
                } else {
                    None
                }
            },
        }
    }
}

/// Where the override `m` of `ancestor`'s method is installed, for a class
/// whose class-struct slots are `layout`.
pub open spec fn target_of<'a>(
    cs: Seq<ClassView<'a>>,
    layout: Option<Seq<LayoutSlot<'a>>>,
    ancestor: &'a String,
    m: SlotView<'a>,
) -> Result<OverrideTarget<'a>> {
    match find_class(cs, ancestor@) {
        None => Ok(OverrideTarget { ancestor: ancestor, method: m.sig.name, index: None }),
        Some(_) => match layout {
            None => Err(Error::InvalidOverrideContext(*m.sig.name, ContextProblem::UnknownOverrideTarget)),
            Some(l) => match slot_index(l, ancestor@, m.sig.name@) {
                Some(i) => Ok(OverrideTarget { ancestor: ancestor, method: m.sig.name, index: Some(i as usize) }),
                None => Err(Error::InvalidOverrideContext(*m.sig.name, ContextProblem::UnknownOverrideTarget)),
            },
        },
    }
}

/// The targets of the first `n` overrides of `ms`, all for `ancestor`, or the first error.
pub open spec fn targets_in<'a>(
    cs: Seq<ClassView<'a>>,
    layout: Option<Seq<LayoutSlot<'a>>>,
    ancestor: &'a String,
    ms: Seq<SlotView<'a>>,
    n: int,
) -> Result<Seq<OverrideTarget<'a>>>
    decreases n,
{
    if n <= 0 {
        Ok(Seq::empty())
    } else {
        match targets_in(cs, layout, ancestor, ms, n - 1) {
            Err(e) => Err(e),
            Ok(a) => match target_of(cs, layout, ancestor, ms[n - 1]) {
                Err(e) => Err(e),
                Ok(t) => Ok(a.push(t)),
            },
        }
    }
}

/// The targets of the overrides of the first `n` ancestors of `ovs`, in order, or the first error.
pub open spec fn targets_all<'a>(
    cs: Seq<ClassView<'a>>,
    layout: Option<Seq<LayoutSlot<'a>>>,
    ovs: Seq<crate::hir::OverrideView<'a>>,
    n: int,
) -> Result<Seq<OverrideTarget<'a>>>
    decreases n,
{
    if n <= 0 {
        Ok(Seq::empty())
    } else {
        match targets_all(cs, layout, ovs, n - 1) {
            Err(e) => Err(e),
            Ok(a) => match targets_in(cs, layout, ovs[n - 1].parent, ovs[n - 1].methods, ovs[n - 1].methods.len() as int) {
                Err(e) => Err(e),
                Ok(b) => Ok(a + b),
            },
        }
    }
}

proof fn lemma_targets_in_err<'a>(
    cs: Seq<ClassView<'a>>,
    layout: Option<Seq<LayoutSlot<'a>>>,
    ancestor: &'a String,
    ms: Seq<SlotView<'a>>,
    n: int,
    k: int,
)
    requires
        1 <= n <= k,
        targets_in(cs, layout, ancestor, ms, n) is Err,
    ensures
        targets_in(cs, layout, ancestor, ms, k) == targets_in(cs, layout, ancestor, ms, n),
    decreases k - n,
{
    if k > n {
        lemma_targets_in_err(cs, layout, ancestor, ms, n, k - 1);
    }
}

proof fn lemma_targets_all_err<'a>(
    cs: Seq<ClassView<'a>>,
    layout: Option<Seq<LayoutSlot<'a>>>,
    ovs: Seq<crate::hir::OverrideView<'a>>,
    n: int,
    k: int,
)
    requires
        1 <= n <= k,
        targets_all(cs, layout, ovs, n) is Err,
    ensures
        targets_all(cs, layout, ovs, k) == targets_all(cs, layout, ovs, n),
    decreases k - n,
{
    if k > n {
        lemma_targets_all_err(cs, layout, ovs, n, k - 1);
    }
}

fn find_slot_index<'ast>(l: &Vec<LayoutSlot<'ast>>, owner: &str, name: &str) -> (r: Option<usize>)
    ensures
        match r {
            Some(i) => slot_index(l@, owner@, name@) == Some(i as int),
            None => slot_index(l@, owner@, name@) is None,
        },
{
    let mut i: usize = 0;
    while i < l.len()
        invariant
            i <= l@.len(),
            slot_index(l@.subrange(0, i as int), owner@, name@) is None,
        decreases l.len() - i,
    {
        proof {
            assert(l@.subrange(0, i + 1).drop_last() =~= l@.subrange(0, i as int));
        }
        if str_eq(l[i].owner.as_str(), owner) && str_eq(l[i].name.as_str(), name)
            && l[i].kind == SlotKind::VirtualMethod {
            proof { lemma_slot_index_prefix(l@, i as int + 1, owner@, name@); }
            return Some(i);
        }
        i += 1;
    }
    proof {
        assert(l@.subrange(0, i as int) =~= l@);
    }
    None
}

proof fn lemma_slot_index_prefix(l: Seq<LayoutSlot>, k: int, owner: Seq<char>, name: Seq<char>)
    requires
        1 <= k <= l.len(),
        slot_index(l.subrange(0, k), owner, name) is Some,
    ensures
        slot_index(l, owner, name) == slot_index(l.subrange(0, k), owner, name),
    decreases l.len() - k,
{
    if k < l.len() {
        assert(l.subrange(0, k + 1).drop_last() =~= l.subrange(0, k));
        lemma_slot_index_prefix(l, k + 1, owner, name);
    } else {
        assert(l.subrange(0, k) =~= l);
    }
}

impl<'ast> Classes<'ast> {
    /// Resolves each override of the class `name` to the ancestor's slot that
    /// it is installed into. An override of a class of the program must name
    /// one of its virtual methods in the class's own inheritance chain.
    pub fn override_targets(&self, name: &str) -> (r: Result<Vec<OverrideTarget<'ast>>>)
        ensures
            match find_class(self@, name@) {
                None => r is Err && r->Err_0 is UnknownSelfClass,
                Some(k) => {
                    let c = self@[k];
                    let spec_r = targets_all(self@, class_layout(self@, name@), c.overrides, c.overrides.len() as int);
                    match r {
                        Ok(v) => spec_r == Ok::<Seq<OverrideTarget<'ast>>, Error>(v@),
                        Err(e) => spec_r == Err::<Seq<OverrideTarget<'ast>>, Error>(e),
                    }
                },
            },
    {
        let k = match self.position(name) {
            Some(k) => k,
            None => return Err(Error::UnknownSelfClass(name.to_owned())),
        };
        proof { lemma_find_class_bounds(self@, name@); }
        let layout = self.class_layout(name);
        let ghost lv: Option<Seq<LayoutSlot<'ast>>> = match &layout {
            Some(l) => Some(l.slots@),
            None => None,
        };
        let class = &self.items[k];
        let ghost ovs = self@[k as int].overrides;
        let mut acc: Vec<OverrideTarget<'ast>> = Vec::new();
        let mut i: usize = 0;
        while i < class.overrides.len()
            invariant
                lv == class_layout(self@, name@),
                match &layout {
                    Some(l) => lv == Some(l.slots@),
                    None => lv is None,
                },
                *class == self.items@[k as int],
                ovs == class@.overrides,
                find_class(self@, name@) == Some(k as int),
                ovs == self@[k as int].overrides,
                i <= ovs.len(),
                targets_all(self@, lv, ovs, i as int) == Ok::<Seq<OverrideTarget<'ast>>, Error>(acc@),
            decreases class.overrides.len() - i,
        {
            let o = &class.overrides[i];
            let ghost ms = ovs[i as int].methods;
            proof {
                assert(o@ == ovs[i as int]);
            }
            let mut part: Vec<OverrideTarget<'ast>> = Vec::new();
            let mut j: usize = 0;
            while j < o.methods.len()
                invariant
                    lv == class_layout(self@, name@),
                    match &layout {
                        Some(l) => lv == Some(l.slots@),
                        None => lv is None,
                    },
                    o@ == ovs[i as int],
                    ms == o@.methods,
                    i < ovs.len(),
                    *class == self.items@[k as int],
                    ovs == class@.overrides,
                    find_class(self@, name@) == Some(k as int),
                    ovs == self@[k as int].overrides,
                    targets_all(self@, lv, ovs, i as int) == Ok::<Seq<OverrideTarget<'ast>>, Error>(acc@),
                    j <= ms.len(),
                    targets_in(self@, lv, o.parent, ms, j as int) == Ok::<Seq<OverrideTarget<'ast>>, Error>(part@),
                decreases o.methods.len() - j,
            {
                let m = &o.methods[j];
                proof {
                    assert(m@ == ms[j as int]);
                    lemma_find_class_bounds(self@, o.parent@);
                }
                let t = match self.position(o.parent.as_str()) {
                    None => OverrideTarget { ancestor: o.parent, method: m.sig.name, index: None },
                    Some(_) => {
                        let found = match &layout {
                            None => None,
                            Some(l) => find_slot_index(&l.slots, o.parent.as_str(), m.sig.name.as_str()),
                        };
                        match found {
                            Some(x) => OverrideTarget { ancestor: o.parent, method: m.sig.name, index: Some(x) },
                            None => {
                                let e = Error::InvalidOverrideContext(m.sig.name.clone(), ContextProblem::UnknownOverrideTarget);
                                proof {
                                    assert(target_of(self@, lv, o.parent, ms[j as int]) == Err::<OverrideTarget<'ast>, Error>(e));
                                    assert(targets_in(self@, lv, o.parent, ms, j as int + 1) == Err::<Seq<OverrideTarget<'ast>>, Error>(e));
                                    lemma_targets_in_err(self@, lv, o.parent, ms, j as int + 1, ms.len() as int);
                                    assert(ovs[i as int].parent == o.parent);
                                    assert(ovs[i as int].methods == ms);
                                    assert(targets_all(self@, lv, ovs, i as int + 1) == Err::<Seq<OverrideTarget<'ast>>, Error>(e));
                                    lemma_targets_all_err(self@, lv, ovs, i as int + 1, ovs.len() as int);
                                }
                                return Err(e);
                            },
                        }
                    },
                };
                part.push(t);
                j += 1;
            }
            let ghost before = acc@;
            let mut part = part;
            acc.append(&mut part);
            i += 1;
        }
        Ok(acc)
    }
}

proof fn lemma_vtable_slots_owner<'a>(owner: &'a String, ss: Seq<SlotView<'a>>)
    ensures
        forall|i: int| 0 <= i < vtable_slots(owner, ss).len() ==> (#[trigger] vtable_slots(owner, ss)[i]).owner == owner,
    decreases ss.len(),
{
    if ss.len() > 0 {
        lemma_vtable_slots_owner(owner, ss.drop_last());
    }
}

proof fn lemma_own_parent_no_layout<'a>(cs: Seq<ClassView<'a>>, k: int, f: nat)
    requires
        0 <= k < cs.len(),
        find_class(cs, cs[k].name@) == Some(k),
        parent_index(cs, cs[k]) == Some(k),
    ensures
        layout_of(cs, cs[k].name@, f) is None,
    decreases f,
{
    if f > 0 {
        lemma_own_parent_no_layout(cs, k, (f - 1) as nat);
    }
}

proof fn lemma_slot_index_append(l: Seq<LayoutSlot>, extra: Seq<LayoutSlot>, owner: Seq<char>, name: Seq<char>)
    requires
        forall|i: int| 0 <= i < extra.len() ==> (#[trigger] extra[i]).owner@ != owner,
    ensures
        slot_index(l + extra, owner, name) == slot_index(l, owner, name),
    decreases extra.len(),
{
    if extra.len() == 0 {
        assert(l + extra =~= l);
    } else {
        assert((l + extra).drop_last() =~= l + extra.drop_last());
        lemma_slot_index_append(l, extra.drop_last(), owner, name);
    }
}

proof fn lemma_slot_index_bounds(l: Seq<LayoutSlot>, owner: Seq<char>, name: Seq<char>)
    ensures
        slot_index(l, owner, name) is Some ==> 0 <= slot_index(l, owner, name)->Some_0 < l.len(),
    decreases l.len(),
{
    if l.len() > 0 {
        lemma_slot_index_bounds(l.drop_last(), owner, name);
    }
}

/// `c` with the overrides `ovs` in place of its own.
pub open spec fn with_overrides<'a>(c: ClassView<'a>, ovs: Seq<crate::hir::OverrideView<'a>>) -> ClassView<'a> {
    ClassView { overrides: ovs, ..c }
}

/// An override of a method of the parent class is installed into the slot
/// that the parent's class struct already has, at the same offset in the
/// child's class struct; the child's own slots, which overrides never add
/// to, play no part.
pub proof fn lemma_override_installs_in_parent<'a>(cs: Seq<ClassView<'a>>, k: int, method: Seq<char>)
    requires
        0 <= k < cs.len(),
        forall|i: int, j: int| 0 <= i < j < cs.len() ==> cs[i].name@ != cs[j].name@,
        find_class(cs, cs[k].name@) == Some(k),
        parent_index(cs, cs[k]) is Some,
        class_layout(cs, cs[k].name@) is Some,
    ensures
        ({
            let p = cs[parent_index(cs, cs[k])->Some_0];
            let child = class_layout(cs, cs[k].name@)->Some_0;
            let parent = class_layout(cs, p.name@)->Some_0;
            &&& forall|ovs: Seq<crate::hir::OverrideView<'a>>| #[trigger] own_slots(with_overrides(cs[k], ovs)) == own_slots(cs[k])
            &&& child.len() == parent.len() + own_slots(cs[k]).len()
            &&& slot_index(child, p.name@, method) == slot_index(parent, p.name@, method)
            &&& (slot_index(parent, p.name@, method) is Some ==> {
                let i = slot_index(parent, p.name@, method)->Some_0;
                0 <= i < parent.len() && child[i] == parent[i]
            })
        }),
{
    let pk = parent_index(cs, cs[k])->Some_0;
    lemma_find_class_bounds(cs, parent_name(cs[k])->Some_0);
    if pk == k {
        lemma_own_parent_no_layout(cs, k, cs.len());
    }
    assert(pk != k);
    assert(cs[pk].name@ != cs[k].name@);
    lemma_class_struct_extends_parent(cs, k, 0, 0);
    let p = cs[pk];
    let parent = class_layout(cs, p.name@)->Some_0;
    let own = own_slots(cs[k]);
    lemma_vtable_slots_owner(cs[k].name, cs[k].slots);
    assert forall|i: int| 0 <= i < own.len() implies (#[trigger] own[i]).owner@ != p.name@ by {
        assert(own[i].owner == cs[k].name);
    }
    lemma_slot_index_append(parent, own, p.name@, method);
    lemma_slot_index_bounds(parent, p.name@, method);
}

} // verus!
