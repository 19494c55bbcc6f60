//! Identifiers of nodes and machines.

use crate::random::{is_v4_hyphenated_uuid, new_v4_hyphenated};
use vstd::prelude::*;

verus! {

/// The identifier of a worker node.
#[derive(Debug, PartialEq, Eq, Hash)]
pub struct NodeId(String);

impl View for NodeId {
    type V = Seq<char>;

    closed spec fn view(&self) -> Seq<char> {
        self.0@
    }
}

impl Clone for NodeId {
    fn clone(&self) -> (r: Self)
        ensures
            r == *self,
    {
        NodeId(self.0.clone())
    }
}

impl NodeId {
    /// A node identifier with the given text.
    pub fn new(id: &str) -> (r: Self)
        ensures
            r@ == id@,
    {
        NodeId(String::from_str(id))
    }

    /// A node identifier that takes ownership of `id`.
    pub fn from_string(id: String) -> (r: Self)
        ensures
            r@ == id@,
    {
        NodeId(id)
    }

    /// The identifier's text.
    pub fn as_str(&self) -> (r: &str)
        ensures
            r@ == self@,
    {
        self.0.as_str()
    }

    /// Whether two identifiers have the same text.
    pub fn same_as(&self, other: &NodeId) -> (b: bool)
        ensures
            b == (self@ == other@),
    {
        self.0 == other.0
    }
}

/// The identifier of a machine.
#[derive(Debug, PartialEq, Eq, Hash)]
pub struct MachineId(String);

impl View for MachineId {
    type V = Seq<char>;

    closed spec fn view(&self) -> Seq<char> {
        self.0@
    }
}

impl Clone for MachineId {
    fn clone(&self) -> (r: Self)
        ensures
            r == *self,
    {
        MachineId(self.0.clone())
    }
}

impl MachineId {
    /// A fresh identifier: a random version-4 UUID in hyphenated form.
    pub fn new() -> (r: Self)
        ensures
            is_v4_hyphenated_uuid(r@),
    {
        MachineId(new_v4_hyphenated())
    }

    /// A machine identifier with the given text.
    pub fn from_text(id: &str) -> (r: Self)
        ensures
            r@ == id@,
    {
        MachineId(String::from_str(id))
    }

    /// The identifier's text.
    pub fn as_str(&self) -> (r: &str)
        ensures
            r@ == self@,
    {
        self.0.as_str()
    }

    /// Whether two identifiers have the same text.
    pub fn same_as(&self, other: &MachineId) -> (b: bool)
        ensures
            b == (self@ == other@),
    {
        self.0 == other.0
    }
}

} // verus!
