//! Identifiers of plugins and interfaces.
use vstd::prelude::*;

verus! {

/// The unique name of a plugin.
#[derive(Debug, Clone, PartialEq, Eq, Hash)]
pub struct PluginId {
    id: String,
}

impl View for PluginId {
    type V = Seq<char>;

    closed spec fn view(&self) -> Seq<char> {
        self.id@
    }
}

impl PluginId {
    pub fn new(id: String) -> (r: Self)
        ensures
            r@ == id@,
    {
        PluginId { id }
    }

    /// The name as text.
    pub fn as_str(&self) -> (r: &str)
        ensures
            r@ == self@,
    {
        self.id.as_str()
    }

    /// Whether two identifiers name the same plugin.
    pub fn same_as(&self, other: &PluginId) -> (r: bool)
        ensures
            r == (self@ == other@),
    {
        self.id == other.id
    }

    /// A second identifier with the same name.
    pub fn duplicate(&self) -> (r: PluginId)
        ensures
            r@ == self@,
    {
        PluginId { id: self.id.clone() }
    }
}

/// The identifier of an interface: what a plugin implements (its plug) and
/// what it depends on (its sockets).
#[derive(Debug, Clone, Copy, PartialEq, Eq, Hash, PartialOrd, Ord, Structural)]
pub struct InterfaceId {
    id: u64,
}

impl InterfaceId {
    /// The number that identifies the interface.
    pub closed spec fn spec_number(&self) -> u64 {
        self.id
    }

    pub fn new(id: u64) -> (r: Self)
        ensures
            r.spec_number() == id,
    {
        InterfaceId { id }
    }

    pub fn number(&self) -> (r: u64)
        ensures
            r == self.spec_number(),
    {
        self.id
    }
}

} // verus!
