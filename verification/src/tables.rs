//! Keyed tables of nodes, machines and launched workers. Each keeps at most one
//! entry per key, in insertion order.

use crate::ids::{MachineId, NodeId};
use crate::model::{Machine, Node};
use vstd::prelude::*;

verus! {

/// Where the node with identifier `id` stands, if any.
pub open spec fn node_position(nodes: Seq<Node>, id: Seq<char>) -> Option<int> {
    if exists|i: int| 0 <= i < nodes.len() && (#[trigger] nodes[i]).id@ == id {
        Some(choose|i: int| 0 <= i < nodes.len() && (#[trigger] nodes[i]).id@ == id)
    } else {
        None
    }
}

/// No two nodes share an identifier.
pub open spec fn unique_node_ids(nodes: Seq<Node>) -> bool {
    forall|i: int, j: int|
        0 <= i < nodes.len() && 0 <= j < nodes.len() && i != j ==> (#[trigger] nodes[i]).id@
            != (#[trigger] nodes[j]).id@
}

/// The nodes known to the control plane, keyed by identifier.
pub struct NodeTable {
    entries: Vec<Node>,
}

impl View for NodeTable {
    type V = Seq<Node>;

    closed spec fn view(&self) -> Seq<Node> {
        self.entries@
    }
}

impl NodeTable {
    /// Every identifier occurs once.
    pub open spec fn wf(&self) -> bool {
        unique_node_ids(self@)
    }

    /// An empty table.
    pub fn new() -> (t: Self)
        ensures
            t.wf(),
            t@ == Seq::<Node>::empty(),
    {
        NodeTable { entries: Vec::new() }
    }

    /// The number of nodes.
    pub fn len(&self) -> (n: usize)
        ensures
            n == self@.len(),
    {
        self.entries.len()
    }

    /// The node at position `i`.
    pub fn get(&self, i: usize) -> (n: &Node)
        requires
            i < self@.len(),
        ensures
            *n == self@[i as int],
    {
        &self.entries[i]
    }

    /// The position of the node with identifier `id`.
    pub fn find(&self, id: &NodeId) -> (r: Option<usize>)
        requires
            self.wf(),
        ensures
            r matches Some(i) ==> node_position(self@, id@) == Some(i as int),
            r is None ==> node_position(self@, id@) is None,
    {
        let mut i: usize = 0;
        while i < self.entries.len()
            invariant
                self.wf(),
                i <= self.entries@.len(),
                forall|j: int| 0 <= j < i ==> (#[trigger] self.entries@[j]).id@ != id@,
            decreases self.entries@.len() - i,
        {
            if self.entries[i].id.same_as(id) {
                let ghost c = choose|k: int|
                    0 <= k < self@.len() && (#[trigger] self@[k]).id@ == id@;
                assert(self@[i as int].id@ == id@);
                assert(c == i);
                return Some(i);
            }
            i = i + 1;
        }
        None
    }

    /// Inserts `node`, replacing the node with the same identifier if there is one.
    pub fn insert(&mut self, node: Node)
        requires
            old(self).wf(),
        ensures
            final(self).wf(),
            match node_position(old(self)@, node.id@) {
                Some(i) => final(self)@ == old(self)@.update(i, node),
                None => final(self)@ == old(self)@.push(node),
            },
    {
        match self.find(&node.id) {
            Some(i) => {
                self.entries.set(i, node);
            },
            None => {
                self.entries.push(node);
            },
        }
    }

    /// Replaces the node at position `i` by `node`, which keeps its identifier.
    pub fn set(&mut self, i: usize, node: Node)
        requires
            old(self).wf(),
            i < old(self)@.len(),
            node.id@ == old(self)@[i as int].id@,
        ensures
            final(self).wf(),
            final(self)@ == old(self)@.update(i as int, node),
    {
        self.entries.set(i, node);
    }

    /// Removes and returns the node at position `i`.
    pub fn remove(&mut self, i: usize) -> (n: Node)
        requires
            old(self).wf(),
            i < old(self)@.len(),
        ensures
            final(self).wf(),
            n == old(self)@[i as int],
            final(self)@ == old(self)@.remove(i as int),
    {
        self.entries.remove(i)
    }
}

/// A stored machine with the key it is stored under.
#[derive(Debug)]
pub struct MachineEntry {
    pub key: MachineId,
    pub machine: Machine,
}

/// Where the machine stored under `key` stands, if any.
pub open spec fn machine_position(entries: Seq<MachineEntry>, key: Seq<char>) -> Option<int> {
    if exists|i: int| 0 <= i < entries.len() && (#[trigger] entries[i]).key@ == key {
        Some(choose|i: int| 0 <= i < entries.len() && (#[trigger] entries[i]).key@ == key)
    } else {
        None
    }
}

/// No two entries share a key.
pub open spec fn unique_machine_keys(entries: Seq<MachineEntry>) -> bool {
    forall|i: int, j: int|
        0 <= i < entries.len() && 0 <= j < entries.len() && i != j ==> (#[trigger] entries[i]).key@
            != (#[trigger] entries[j]).key@
}

/// The machines known to the control plane, keyed by machine identifier.
pub struct MachineTable {
    entries: Vec<MachineEntry>,
}

impl View for MachineTable {
    type V = Seq<MachineEntry>;

    closed spec fn view(&self) -> Seq<MachineEntry> {
        self.entries@
    }
}

impl MachineTable {
    /// Every key occurs once.
    pub open spec fn wf(&self) -> bool {
        unique_machine_keys(self@)
    }

    /// An empty table.
    pub fn new() -> (t: Self)
        ensures
            t.wf(),
            t@ == Seq::<MachineEntry>::empty(),
    {
        MachineTable { entries: Vec::new() }
    }

    /// The number of machines.
    pub fn len(&self) -> (n: usize)
        ensures
            n == self@.len(),
    {
        self.entries.len()
    }

    /// The entry at position `i`.
    pub fn get(&self, i: usize) -> (e: &MachineEntry)
        requires
            i < self@.len(),
        ensures
            *e == self@[i as int],
    {
        &self.entries[i]
    }

    /// The position of the machine stored under `key`.
    pub fn find(&self, key: &MachineId) -> (r: Option<usize>)
        requires
            self.wf(),
        ensures
            r matches Some(i) ==> machine_position(self@, key@) == Some(i as int),
            r is None ==> machine_position(self@, key@) is None,
    {
        let mut i: usize = 0;
        while i < self.entries.len()
            invariant
                self.wf(),
                i <= self.entries@.len(),
                forall|j: int| 0 <= j < i ==> (#[trigger] self.entries@[j]).key@ != key@,
            decreases self.entries@.len() - i,
        {
            if self.entries[i].key.same_as(key) {
                let ghost c = choose|k: int|
                    0 <= k < self@.len() && (#[trigger] self@[k]).key@ == key@;
                assert(self@[i as int].key@ == key@);
                assert(c == i);
                return Some(i);
            }
            i = i + 1;
        }
        None
    }

    /// Stores `machine` under `key`, replacing what was stored under it.
    pub fn insert(&mut self, key: MachineId, machine: Machine)
        requires
            old(self).wf(),
        ensures
            final(self).wf(),
            match machine_position(old(self)@, key@) {
                Some(i) => final(self)@ == old(self)@.update(i, MachineEntry { key, machine }),
                None => final(self)@ == old(self)@.push(MachineEntry { key, machine }),
            },
    {
        match self.find(&key) {
            Some(i) => {
                self.entries.set(i, MachineEntry { key, machine });
            },
            None => {
                self.entries.push(MachineEntry { key, machine });
            },
        }
    }

    /// Replaces the machine at position `i`, under the same key.
    pub fn set_machine(&mut self, i: usize, machine: Machine)
        requires
            old(self).wf(),
            i < old(self)@.len(),
        ensures
            final(self).wf(),
            final(self)@ == old(self)@.update(
                i as int,
                MachineEntry { key: old(self)@[i as int].key, machine },
            ),
    {
        let key = self.entries[i].key.clone();
        self.entries.set(i, MachineEntry { key, machine });
    }

    /// Removes and returns the entry at position `i`.
    pub fn remove(&mut self, i: usize) -> (e: MachineEntry)
        requires
            old(self).wf(),
            i < old(self)@.len(),
        ensures
            final(self).wf(),
            e == old(self)@[i as int],
            final(self)@ == old(self)@.remove(i as int),
    {
        self.entries.remove(i)
    }
}

/// What the control plane keeps of a worker process it launched.
#[derive(Debug)]
pub struct LaunchRecord {
    pub node_id: NodeId,
    pub process_id: Option<u32>,
    pub backend: String,
}

/// Where the launch record of node `id` stands, if any.
pub open spec fn launch_position(records: Seq<LaunchRecord>, id: Seq<char>) -> Option<int> {
    if exists|i: int| 0 <= i < records.len() && (#[trigger] records[i]).node_id@ == id {
        Some(choose|i: int| 0 <= i < records.len() && (#[trigger] records[i]).node_id@ == id)
    } else {
        None
    }
}

/// No two records share a node.
pub open spec fn unique_launch_nodes(records: Seq<LaunchRecord>) -> bool {
    forall|i: int, j: int|
        0 <= i < records.len() && 0 <= j < records.len() && i != j
            ==> (#[trigger] records[i]).node_id@ != (#[trigger] records[j]).node_id@
}

/// The worker processes launched by the control plane, keyed by node.
pub struct LaunchTable {
    entries: Vec<LaunchRecord>,
}

impl View for LaunchTable {
    type V = Seq<LaunchRecord>;

    closed spec fn view(&self) -> Seq<LaunchRecord> {
        self.entries@
    }
}

impl LaunchTable {
    /// Every node occurs once.
    pub open spec fn wf(&self) -> bool {
        unique_launch_nodes(self@)
    }

    /// An empty table.
    pub fn new() -> (t: Self)
        ensures
            t.wf(),
            t@ == Seq::<LaunchRecord>::empty(),
    {
        LaunchTable { entries: Vec::new() }
    }

    /// The record at position `i`.
    pub fn get(&self, i: usize) -> (r: &LaunchRecord)
        requires
            i < self@.len(),
        ensures
            *r == self@[i as int],
    {
        &self.entries[i]
    }

    /// The position of the record of node `id`.
    pub fn find(&self, id: &NodeId) -> (r: Option<usize>)
        requires
            self.wf(),
        ensures
            r matches Some(i) ==> launch_position(self@, id@) == Some(i as int),
            r is None ==> launch_position(self@, id@) is None,
    {
        let mut i: usize = 0;
        while i < self.entries.len()
            invariant
                self.wf(),
                i <= self.entries@.len(),
                forall|j: int| 0 <= j < i ==> (#[trigger] self.entries@[j]).node_id@ != id@,
            decreases self.entries@.len() - i,
        {
            if self.entries[i].node_id.same_as(id) {
                let ghost c = choose|k: int|
                    0 <= k < self@.len() && (#[trigger] self@[k]).node_id@ == id@;
                assert(self@[i as int].node_id@ == id@);
                assert(c == i);
                return Some(i);
            }
            i = i + 1;
        }
        None
    }

    /// Stores `record`, replacing the record of the same node if there is one.
    pub fn insert(&mut self, record: LaunchRecord)
        requires
            old(self).wf(),
        ensures
            final(self).wf(),
            match launch_position(old(self)@, record.node_id@) {
                Some(i) => final(self)@ == old(self)@.update(i, record),
                None => final(self)@ == old(self)@.push(record),
            },
    {
        match self.find(&record.node_id) {
            Some(i) => {
                self.entries.set(i, record);
            },
            None => {
                self.entries.push(record);
            },
        }
    }

    /// Removes and returns the record at position `i`.
    pub fn remove(&mut self, i: usize) -> (r: LaunchRecord)
        requires
            old(self).wf(),
            i < old(self)@.len(),
        ensures
            final(self).wf(),
            r == old(self)@[i as int],
            final(self)@ == old(self)@.remove(i as int),
    {
        self.entries.remove(i)
    }
}

} // verus!
