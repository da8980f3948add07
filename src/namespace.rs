//! Namespace nodes, located tables and device identifiers.
use vstd::prelude::*;

verus! {

/// A reference to a node of the engine's namespace, by its address; the root of the
/// namespace is the null reference. It owns nothing: the node lives as long as the
/// namespace holds it.
#[derive(Clone, Copy, Debug, PartialEq, Eq, Structural)]
pub struct NamespaceNode(usize);

impl View for NamespaceNode {
    type V = usize;

    closed spec fn view(&self) -> usize {
        self.0
    }
}

impl NamespaceNode {
    /// The root of the namespace.
    pub fn root() -> (r: NamespaceNode)
        ensures
            r@ == 0,
    {
        NamespaceNode(0)
    }

    /// The node at the given address, as the engine handed it out.
    pub fn from_raw(addr: usize) -> (r: NamespaceNode)
        ensures
            r@ == addr,
    {
        NamespaceNode(addr)
    }

    pub fn as_raw(self) -> (r: usize)
        ensures
            r == self@,
    {
        self.0
    }

    pub fn is_root(self) -> (r: bool)
        ensures
            r == (self@ == 0),
    {
        self.0 == 0
    }
}

/// An ACPI table that the engine located: where it is mapped, and the index by which the
/// engine releases it.
#[derive(Clone, Copy, Debug, PartialEq, Eq, Structural)]
pub struct Table {
    virt_addr: usize,
    index: usize,
}

impl Table {
    pub closed spec fn spec_virt_addr(&self) -> usize {
        self.virt_addr
    }

    pub closed spec fn spec_index(&self) -> usize {
        self.index
    }

    pub fn new(virt_addr: usize, index: usize) -> (r: Table)
        ensures
            r.spec_virt_addr() == virt_addr,
            r.spec_index() == index,
    {
        Table { virt_addr, index }
    }

    pub fn get_virt_addr(&self) -> (r: usize)
        ensures
            r == self.spec_virt_addr(),
    {
        self.virt_addr
    }

    pub fn get_index(&self) -> (r: usize)
        ensures
            r == self.spec_index(),
    {
        self.index
    }
}

/// A device identifier that the engine evaluated, such as a `_HID` value.
pub struct IdString {
    value: String,
}

impl View for IdString {
    type V = Seq<char>;

    closed spec fn view(&self) -> Seq<char> {
        self.value@
    }
}

impl IdString {
    pub fn new(value: String) -> (r: IdString)
        ensures
            r@ == value@,
    {
        IdString { value }
    }

    pub fn as_str(&self) -> (r: &str)
        ensures
            r@ == self@,
    {
        self.value.as_str()
    }
}

} // verus!
