use vstd::prelude::*;

verus! {

/// Why a qualifier or an item is not accepted where it stands.
#[derive(Clone, Copy, Debug, PartialEq, Eq, Structural)]
pub enum ContextProblem {
    /// A signal given in an `impl Parent for Child` block.
    SignalOverride,
    /// A method without `virtual` given in an `impl Parent for Child` block.
    NonVirtualOverride,
    /// `pub` on an override, which is always exposed.
    PublicOverride,
    /// `reserve_slots` is not supported in any impl block.
    SlotReservation,
    /// `pub` on a signal.
    PublicSignal,
    /// `virtual` on a signal.
    VirtualSignal,
    /// `pub` on a virtual method.
    PublicVirtual,
    /// `impl interface X for Y`, which is not implemented.
    InterfaceImplementation,
    /// A property given in an `impl Parent for Child` block.
    PropertyOverride,
    /// An override that names no virtual method of the named ancestor.
    UnknownOverrideTarget,
}

/// The diagnostics of a compilation. Each one names the declaration at fault.
#[derive(Clone, Debug, PartialEq, Eq)]
pub enum Error {
    /// Two class declarations share this name.
    DuplicateClass(String),
    /// An impl block names a class that is not declared.
    UnknownSelfClass(String),
    /// The named method stands where its qualifiers are not accepted.
    InvalidOverrideContext(String, ContextProblem),
    /// The named method needs a body and has none.
    MissingBody(String),
    /// The named method's signature holds a type with no ABI mapping.
    UnsupportedType(String),
    /// The named method has a receiver or an argument pattern that is not accepted.
    UnsupportedArgumentPattern(String),
    /// The named class is its own ancestor.
    InheritanceCycle(String),
}

pub type Result<T> = core::result::Result<T, Error>;

} // verus!
