//! Emits the source text of the object types: per class the instance and
//! class structs, type registration, lifecycle handlers, dispatch
//! trampolines and signal machinery; per interface its marker structs.

pub mod boilerplate;
pub mod class;
pub mod imp;
pub mod instance_ext;
pub mod interface;
pub mod signals;
pub mod signatures;

use vstd::prelude::*;
use vstd::string::*;
use crate::errors::{Error, Result};
use crate::gen::boilerplate::boilerplate_text;
use crate::gen::class::ClassContext;
use crate::gen::interface::{interface_text, InterfaceContext};
use crate::hir::{
    find_class, gtype_name, lemma_find_class_bounds, marshalable, ClassView, Classes, FnArg, FnSig,
    Interface, OverrideView, Program, SigView, Slot, SlotKind, SlotView,
};
use crate::gen::signatures::{arg_marshalable, sig_marshalable};
use crate::layout::{class_layout, targets_all};

verus! {

/// Whether the return value and the parameters after the receiver of `s`
/// have runtime type identifiers, as a signal's must.
pub open spec fn sig_registrable(s: SigView) -> bool {
    &&& gtype_name(s.output) is Some
    &&& forall|i: int| 1 <= i < s.inputs.len() ==> match #[trigger] s.inputs[i] {
        FnArg::Arg { ty, .. } => gtype_name(ty) is Some,
        FnArg::SelfRef => true,
    }
}

/// Whether the generated code can hold slot `s`: a private method is never
/// exposed; every other slot crosses the ABI boundary, and a signal is
/// registered with the runtime type identifiers of its types.
pub open spec fn slot_accepted(s: SlotView) -> bool {
    (s.kind == SlotKind::Method && !s.public) || (sig_marshalable(s.sig) && (s.kind == SlotKind::Signal
        ==> sig_registrable(s.sig)))
}

/// Whether every slot and every override of `c` can be generated.
pub open spec fn class_accepted(c: ClassView) -> bool {
    &&& forall|i: int| 0 <= i < c.slots.len() ==> slot_accepted(#[trigger] c.slots[i])
    &&& forall|j: int, i: int| 0 <= j < c.overrides.len() && 0 <= i < c.overrides[j].methods.len()
        ==> sig_marshalable(#[trigger] c.overrides[j].methods[i].sig)
}

/// The index of the first slot of `ss` that is not accepted.
pub open spec fn first_rejected(ss: Seq<SlotView>) -> Option<int>
    decreases ss.len(),
{
    if ss.len() == 0 {
        None
    } else {
        match first_rejected(ss.drop_last()) {
            Some(i) => Some(i),
            None => if !slot_accepted(ss.last()) { Some(ss.len() - 1) } else { None },
        }
    }
}

/// The index of the first of `ms` whose signature cannot cross the ABI boundary.
pub open spec fn first_unmarshalable(ms: Seq<SlotView>) -> Option<int>
    decreases ms.len(),
{
    if ms.len() == 0 {
        None
    } else {
        match first_unmarshalable(ms.drop_last()) {
            Some(i) => Some(i),
            None => if !sig_marshalable(ms.last().sig) { Some(ms.len() - 1) } else { None },
        }
    }
}

/// The first override in `ovs` whose signature cannot cross the ABI boundary.
pub open spec fn rejected_override<'a>(ovs: Seq<OverrideView<'a>>) -> Option<SlotView<'a>>
    decreases ovs.len(),
{
    if ovs.len() == 0 {
        None
    } else {
        match rejected_override(ovs.drop_last()) {
            Some(m) => Some(m),
            None => match first_unmarshalable(ovs.last().methods) {
                Some(i) => Some(ovs.last().methods[i]),
                None => None,
            },
        }
    }
}

/// Why the class `cs[k]` cannot be generated, if it cannot: a slot or an
/// override with a type that has no ABI mapping, an inheritance cycle, or an
/// override with no slot to go into.
pub open spec fn class_error(cs: Seq<ClassView>, k: int) -> Option<Error> {
    let c = cs[k];
    match first_rejected(c.slots) {
        Some(i) => Some(Error::UnsupportedType(*c.slots[i].sig.name)),
        None => match rejected_override(c.overrides) {
            Some(m) => Some(Error::UnsupportedType(*m.sig.name)),
            None => match class_layout(cs, c.name@) {
                None => Some(Error::InheritanceCycle(*c.name)),
                Some(_) => match targets_all(cs, class_layout(cs, c.name@), c.overrides, c.overrides.len() as int) {
                    Err(e) => Some(e),
                    Ok(_) => None,
                },
            },
        },
    }
}

/// The first error among the first `n` classes of `cs`.
pub open spec fn program_error(cs: Seq<ClassView>, n: int) -> Option<Error>
    decreases n,
{
    if n <= 0 {
        None
    } else {
        match program_error(cs, n - 1) {
            Some(e) => Some(e),
            None => class_error(cs, n - 1),
        }
    }
}

/// The generated code of the first `n` classes, in order.
pub open spec fn classes_text(cxs: Seq<ClassContext>, n: int) -> Seq<char>
    decreases n,
{
    if n <= 0 {
        Seq::empty()
    } else {
        classes_text(cxs, n - 1) + boilerplate_text(&cxs[n - 1])
    }
}

/// The generated code of the first `n` interfaces, in order.
pub open spec fn interfaces_text(ifs: Seq<Interface>, n: int) -> Seq<char>
    decreases n,
{
    if n <= 0 {
        Seq::empty()
    } else {
        interfaces_text(ifs, n - 1) + interface_text(ifs[n - 1].name@)
    }
}

fn sig_is_marshalable(sig: &FnSig) -> (r: bool)
    ensures
        r == sig_marshalable(sig@),
{
    if !sig.output.is_marshalable() {
        return false;
    }
    let mut i: usize = 1;
    while i < sig.inputs.len()
        invariant
            1 <= i,
            i <= sig.inputs@.len() || sig.inputs@.len() == 0,
            marshalable(sig.output),
            forall|j: int| 1 <= j < i && j < sig.inputs@.len() ==> arg_marshalable(#[trigger] sig.inputs@[j]),
        decreases sig.inputs.len() - i,
    {
        match &sig.inputs[i] {
            FnArg::Arg { ty, .. } => if !ty.is_marshalable() {
                proof {
                    assert(!arg_marshalable(sig@.inputs[i as int]));
                }
                return false;
            },
            FnArg::SelfRef => {},
        }
        i += 1;
    }
    true
}

fn sig_is_registrable(sig: &FnSig) -> (r: bool)
    ensures
        r == sig_registrable(sig@),
{
    if sig.output.to_gtype_string().is_none() {
        return false;
    }
    let mut i: usize = 1;
    while i < sig.inputs.len()
        invariant
            1 <= i,
            i <= sig.inputs@.len() || sig.inputs@.len() == 0,
            gtype_name(sig.output) is Some,
            forall|j: int| 1 <= j < i && j < sig.inputs@.len() ==> match #[trigger] sig.inputs@[j] {
                FnArg::Arg { ty, .. } => gtype_name(ty) is Some,
                FnArg::SelfRef => true,
            },
        decreases sig.inputs.len() - i,
    {
        match &sig.inputs[i] {
            FnArg::Arg { ty, .. } => if ty.to_gtype_string().is_none() {
                return false;
            },
            FnArg::SelfRef => {},
        }
        i += 1;
    }
    true
}

fn is_slot_accepted(s: &Slot) -> (r: bool)
    ensures
        r == slot_accepted(s@),
{
    match s {
        Slot::Method(m) => !m.public || sig_is_marshalable(&m.sig),
        Slot::VirtualMethod(v) => sig_is_marshalable(&v.sig),
        Slot::Signal(g) => sig_is_marshalable(&g.sig) && sig_is_registrable(&g.sig),
    }
}

proof fn lemma_first_rejected_prefix(ss: Seq<SlotView>, k: int)
    requires
        1 <= k <= ss.len(),
        first_rejected(ss.subrange(0, k)) is Some,
    ensures
        first_rejected(ss) == first_rejected(ss.subrange(0, k)),
    decreases ss.len() - k,
{
    if k < ss.len() {
        assert(ss.subrange(0, k + 1).drop_last() =~= ss.subrange(0, k));
        lemma_first_rejected_prefix(ss, k + 1);
    } else {
        assert(ss.subrange(0, k) =~= ss);
    }
}

proof fn lemma_first_rejected_bounds(ss: Seq<SlotView>)
    ensures
        first_rejected(ss) is Some ==> 0 <= first_rejected(ss)->Some_0 < ss.len(),
    decreases ss.len(),
{
    if ss.len() > 0 {
        lemma_first_rejected_bounds(ss.drop_last());
    }
}

/// The index of the first slot of `slots` that is not accepted.
fn find_rejected(slots: &Vec<Slot>) -> (r: Option<usize>)
    ensures
        match r {
            Some(i) => first_rejected(crate::hir::slot_views(slots@)) == Some(i as int),
            None => first_rejected(crate::hir::slot_views(slots@)) is None,
        },
{
    let ghost ss = crate::hir::slot_views(slots@);
    let mut i: usize = 0;
    while i < slots.len()
        invariant
            ss == crate::hir::slot_views(slots@),
            i <= slots@.len(),
            first_rejected(ss.subrange(0, i as int)) is None,
        decreases slots.len() - i,
    {
        proof {
            assert(ss.subrange(0, i + 1).drop_last() =~= ss.subrange(0, i as int));
        }
        if !is_slot_accepted(&slots[i]) {
            proof { lemma_first_rejected_prefix(ss, i as int + 1); }
            return Some(i);
        }
        i += 1;
    }
    proof {
        assert(ss.subrange(0, i as int) =~= ss);
    }
    None
}

/// The first override of `ovs` whose signature cannot cross the ABI boundary.
fn find_rejected_override<'ast>(ovs: &Vec<crate::hir::Override<'ast>>) -> (r: Option<&'ast String>)
    ensures
        match r {
            Some(n) => rejected_override(ovs@.map_values(|o: crate::hir::Override<'ast>| o@)) is Some
                && rejected_override(ovs@.map_values(|o: crate::hir::Override<'ast>| o@))->Some_0.sig.name == n,
            None => rejected_override(ovs@.map_values(|o: crate::hir::Override<'ast>| o@)) is None,
        },
{
    let ghost vs = ovs@.map_values(|o: crate::hir::Override<'ast>| o@);
    let mut i: usize = 0;
    while i < ovs.len()
        invariant
            vs == ovs@.map_values(|o: crate::hir::Override<'ast>| o@),
            i <= ovs@.len(),
            rejected_override(vs.subrange(0, i as int)) is None,
        decreases ovs.len() - i,
    {
        let ms = &ovs[i].methods;
        let ghost mv = crate::hir::method_views(ms@);
        let mut j: usize = 0;
        while j < ms.len()
            invariant
                mv == crate::hir::method_views(ms@),
                vs == ovs@.map_values(|o: crate::hir::Override<'ast>| o@),
                i < ovs@.len(),
                ms == ovs@[i as int].methods,
                rejected_override(vs.subrange(0, i as int)) is None,
                j <= ms@.len(),
                first_unmarshalable(mv.subrange(0, j as int)) is None,
            decreases ms.len() - j,
        {
            proof {
                assert(mv.subrange(0, j + 1).drop_last() =~= mv.subrange(0, j as int));
            }
            if !sig_is_marshalable(&ms[j].sig) {
                proof {
                    lemma_first_unmarshalable_prefix(mv, j as int + 1);
                    assert(vs.subrange(0, i + 1).drop_last() =~= vs.subrange(0, i as int));
                    assert(vs[i as int].methods == mv);
                    lemma_rejected_override_prefix(vs, i as int + 1);
                }
                return Some(ms[j].sig.name);
            }
            j += 1;
        }
        proof {
            assert(mv.subrange(0, j as int) =~= mv);
            assert(vs[i as int].methods == mv);
        }
        proof {
            assert(vs.subrange(0, i + 1).drop_last() =~= vs.subrange(0, i as int));
        }
        i += 1;
    }
    proof {
        assert(vs.subrange(0, i as int) =~= vs);
    }
    None
}

proof fn lemma_first_unmarshalable_prefix(ms: Seq<SlotView>, k: int)
    requires
        1 <= k <= ms.len(),
        first_unmarshalable(ms.subrange(0, k)) is Some,
    ensures
        first_unmarshalable(ms) == first_unmarshalable(ms.subrange(0, k)),
    decreases ms.len() - k,
{
    if k < ms.len() {
        assert(ms.subrange(0, k + 1).drop_last() =~= ms.subrange(0, k));
        lemma_first_unmarshalable_prefix(ms, k + 1);
    } else {
        assert(ms.subrange(0, k) =~= ms);
    }
}

proof fn lemma_rejected_override_prefix<'a>(ovs: Seq<OverrideView<'a>>, k: int)
    requires
        1 <= k <= ovs.len(),
        rejected_override(ovs.subrange(0, k)) is Some,
    ensures
        rejected_override(ovs) == rejected_override(ovs.subrange(0, k)),
    decreases ovs.len() - k,
{
    if k < ovs.len() {
        assert(ovs.subrange(0, k + 1).drop_last() =~= ovs.subrange(0, k));
        lemma_rejected_override_prefix(ovs, k + 1);
    } else {
        assert(ovs.subrange(0, k) =~= ovs);
    }
}

/// In a program with unique class names, each class is found at its own index.
pub proof fn lemma_find_own_class(cs: Seq<ClassView>, k: int)
    requires
        0 <= k < cs.len(),
        forall|i: int, j: int| 0 <= i < j < cs.len() ==> cs[i].name@ != cs[j].name@,
    ensures
        find_class(cs, cs[k].name@) == Some(k),
{
    lemma_find_class_bounds(cs, cs[k].name@);
    let j = find_class(cs, cs[k].name@)->Some_0;
    if j != k {
        if j < k {
            assert(cs[j].name@ != cs[k].name@);
        } else {
            assert(cs[k].name@ != cs[j].name@);
        }
    }
}

fn check_class(classes: &Classes, k: usize) -> (r: Result<()>)
    requires
        classes.wf(),
        k < classes@.len(),
    ensures
        match class_error(classes@, k as int) {
            Some(e) => r == Err::<(), Error>(e),
            None => r is Ok,
        },
{
    let class = &classes.items[k];
    proof {
        assert(class@ == classes@[k as int]);
        lemma_first_rejected_bounds(class@.slots);
    }
    match find_rejected(&class.slots) {
        Some(i) => {
            let name = class.slots[i].sig().name;
            return Err(Error::UnsupportedType(name.clone()));
        },
        None => {},
    }
    match find_rejected_override(&class.overrides) {
        Some(n) => return Err(Error::UnsupportedType(n.clone())),
        None => {},
    }
    let name = class.name.as_str();
    if classes.class_layout(name).is_none() {
        return Err(Error::InheritanceCycle(class.name.clone()));
    }
    proof {
        assert forall|i: int, j: int| 0 <= i < j < classes@.len() implies classes@[i].name@ != classes@[j].name@ by {
            assert(classes@[i].name == classes.items@[i].name);
            assert(classes@[j].name == classes.items@[j].name);
        }
        lemma_find_own_class(classes@, k as int);
    }
    match classes.override_targets(name) {
        Ok(_) => Ok(()),
        Err(e) => Err(e),
    }
}

/// Generates the code of a whole program: every class, then every interface.
/// Nothing is generated where any class cannot be: the first error is returned.
pub fn codegen<'ast>(program: &'ast Program<'ast>) -> (r: Result<String>)
    requires
        program.classes.wf(),
    ensures
        match program_error(program.classes@, program.classes@.len() as int) {
            Some(e) => r == Err::<String, Error>(e),
            None => r is Ok && exists|cxs: Seq<ClassContext<'ast>>| {
                &&& cxs.len() == program.classes@.len()
                &&& forall|k: int| 0 <= k < cxs.len() ==> (#[trigger] cxs[k]).wf()
                    && cxs[k].class == &program.classes.items@[k] && cxs[k].program == program
                &&& r->Ok_0@ == classes_text(cxs, cxs.len() as int)
                    + interfaces_text(program.interfaces@, program.interfaces@.len() as int)
            },
        },
{
    check_classes(&program.classes)?;
    proof {
        lemma_program_error_none(program.classes@, program.classes@.len() as int);
    }
    let (text, Ghost(cxs)) = gen_classes(program);
    let ifaces = gen_interfaces(program);
    let mut text = text;
    text.append(ifaces.as_str());
    proof {
        assert(cxs.len() == program.classes@.len());
    }
    Ok(text)
}

fn check_classes(classes: &Classes) -> (r: Result<()>)
    requires
        classes.wf(),
    ensures
        match program_error(classes@, classes@.len() as int) {
            Some(e) => r == Err::<(), Error>(e),
            None => r is Ok,
        },
{
    let mut k: usize = 0;
    while k < classes.items.len()
        invariant
            classes.wf(),
            k <= classes@.len(),
            program_error(classes@, k as int) is None,
        decreases classes.items.len() - k,
    {
        match check_class(classes, k) {
            Ok(()) => {},
            Err(e) => {
                proof {
                    lemma_program_error_stays(classes@, k as int + 1, classes@.len() as int);
                }
                return Err(e);
            },
        }
        k += 1;
    }
    Ok(())
}

fn gen_classes<'ast>(program: &'ast Program<'ast>) -> (r: (String, Ghost<Seq<ClassContext<'ast>>>))
    requires
        forall|k: int| 0 <= k < program.classes@.len() ==> class_accepted(#[trigger] program.classes@[k]),
    ensures
        r.1@.len() == program.classes.items@.len(),
        forall|k: int| 0 <= k < r.1@.len() ==> (#[trigger] r.1@[k]).wf()
            && r.1@[k].class == &program.classes.items@[k] && r.1@[k].program == program,
        r.0@ == classes_text(r.1@, r.1@.len() as int),
{
    let classes = &program.classes;
    let mut text = String::new();
    let ghost mut cxs: Seq<ClassContext<'ast>> = Seq::empty();
    let mut i: usize = 0;
    while i < classes.items.len()
        invariant
            *classes == program.classes,
            i <= classes.items@.len(),
            cxs.len() == i,
            forall|j: int| 0 <= j < i ==> (#[trigger] cxs[j]).wf() && cxs[j].class == &program.classes.items@[j]
                && cxs[j].program == program,
            text@ == classes_text(cxs, i as int),
            forall|k: int| 0 <= k < program.classes@.len() ==> class_accepted(#[trigger] program.classes@[k]),
        decreases classes.items.len() - i,
    {
        let cx = ClassContext::new(program, &classes.items[i]);
        proof {
            assert(cx.class@ == program.classes@[i as int]);
        }
        let piece = cx.gen_class();
        text.append(piece.as_str());
        proof {
            let before = cxs;
            cxs = cxs.push(cx);
            lemma_classes_text_prefix(before, cxs, i as int);
        }
        i += 1;
    }
    (text, Ghost(cxs))
}

fn gen_interfaces<'ast>(program: &'ast Program<'ast>) -> (r: String)
    ensures
        r@ == interfaces_text(program.interfaces@, program.interfaces@.len() as int),
{
    let mut q: usize = 0;
    let mut ifaces = String::new();
    while q < program.interfaces.len()
        invariant
            q <= program.interfaces@.len(),
            ifaces@ == interfaces_text(program.interfaces@, q as int),
        decreases program.interfaces.len() - q,
    {
        let cx = InterfaceContext::new(program, &program.interfaces[q]);
        let piece = cx.gen_interface();
        ifaces.append(piece.as_str());
        q += 1;
    }
    ifaces
}

proof fn lemma_classes_text_prefix<'ast>(a: Seq<ClassContext<'ast>>, b: Seq<ClassContext<'ast>>, n: int)
    requires
        0 <= n <= a.len(),
        n <= b.len(),
        forall|j: int| 0 <= j < n ==> a[j] == b[j],
    ensures
        classes_text(a, n) == classes_text(b, n),
    decreases n,
{
    if n > 0 {
        lemma_classes_text_prefix(a, b, n - 1);
    }
}

proof fn lemma_program_error_stays(cs: Seq<ClassView>, n: int, k: int)
    requires
        1 <= n <= k,
        program_error(cs, n) is Some,
    ensures
        program_error(cs, k) == program_error(cs, n),
    decreases k - n,
{
    if k > n {
        lemma_program_error_stays(cs, n, k - 1);
    }
}

proof fn lemma_first_rejected_none(ss: Seq<SlotView>)
    requires
        first_rejected(ss) is None,
    ensures
        forall|i: int| 0 <= i < ss.len() ==> slot_accepted(#[trigger] ss[i]),
    decreases ss.len(),
{
    if ss.len() > 0 {
        lemma_first_rejected_none(ss.drop_last());
        assert(forall|i: int| 0 <= i < ss.len() - 1 ==> ss.drop_last()[i] == ss[i]);
    }
}

proof fn lemma_first_unmarshalable_none(ms: Seq<SlotView>)
    requires
        first_unmarshalable(ms) is None,
    ensures
        forall|i: int| 0 <= i < ms.len() ==> sig_marshalable(#[trigger] ms[i].sig),
    decreases ms.len(),
{
    if ms.len() > 0 {
        lemma_first_unmarshalable_none(ms.drop_last());
        assert(forall|i: int| 0 <= i < ms.len() - 1 ==> ms.drop_last()[i] == ms[i]);
    }
}

proof fn lemma_rejected_override_none(ovs: Seq<OverrideView>)
    requires
        rejected_override(ovs) is None,
    ensures
        forall|j: int, i: int| 0 <= j < ovs.len() && 0 <= i < ovs[j].methods.len()
            ==> sig_marshalable(#[trigger] ovs[j].methods[i].sig),
    decreases ovs.len(),
{
    if ovs.len() > 0 {
        lemma_rejected_override_none(ovs.drop_last());
        lemma_first_unmarshalable_none(ovs.last().methods);
        assert(forall|j: int| 0 <= j < ovs.len() - 1 ==> ovs.drop_last()[j] == ovs[j]);
    }
}

/// A program with no error has every class ready for generation.
proof fn lemma_program_error_none(cs: Seq<ClassView>, n: int)
    requires
        0 <= n <= cs.len(),
        program_error(cs, n) is None,
    ensures
        forall|k: int| 0 <= k < n ==> class_accepted(#[trigger] cs[k]),
    decreases n,
{
    if n > 0 {
        lemma_program_error_none(cs, n - 1);
        let c = cs[n - 1];
        assert(class_error(cs, n - 1) is None);
        lemma_first_rejected_none(c.slots);
        lemma_rejected_override_none(c.overrides);
    }
}

} // verus!
