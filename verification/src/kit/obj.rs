use vstd::prelude::*;

use crate::kit::config::CSPACE_DEPTH;

verus! {

/// Slot offset of a CNode's capability to itself inside that CNode.
pub const ROOT_CNODE_SELF_INDEX: usize = 2;

/// The path of a CNode capability: its address bits and the depth at which
/// they are resolved in the root CSpace.
#[derive(Clone, Copy, Debug, PartialEq, Eq, Structural)]
pub struct CNodePath {
    pub bits: u64,
    pub depth: usize,
}

/// The global slot number of slot `index` of a CNode of `2^root_cnode_bits`
/// slots found at `path_bits`.
pub open spec fn slot_number(path_bits: u64, root_cnode_bits: usize, index: usize) -> int {
    ((path_bits as usize) << root_cnode_bits) as int + index
}

/// Distinct slot indices of one CNode have distinct global slot numbers.
pub proof fn lemma_slot_numbers_distinct(path_bits: u64, root_cnode_bits: usize, i: usize, j: usize)
    requires
        i != j,
    ensures
        slot_number(path_bits, root_cnode_bits, i) != slot_number(path_bits, root_cnode_bits, j),
{
}

/// Abstract state of a [`CapSet`].
pub struct CapSetView {
    pub root_cnode: CNodePath,
    pub root_cnode_bits: usize,
    pub slot_range: (usize, usize),
    pub untyped: u64,
    pub caps: Seq<usize>,
}

/// The capabilities of one task whose CNode sits at `cnode_index` of the
/// root CSpace: the untyped its objects come from, the range of global slot
/// numbers its slot manager hands out, and the slots filled so far.
pub struct CapSet {
    root_cnode: CNodePath,
    root_cnode_bits: usize,
    slot_range: (usize, usize),
    untyped: u64,
    caps: Vec<usize>,
}

impl View for CapSet {
    type V = CapSetView;

    closed spec fn view(&self) -> CapSetView {
        CapSetView {
            root_cnode: self.root_cnode,
            root_cnode_bits: self.root_cnode_bits,
            slot_range: self.slot_range,
            untyped: self.untyped,
            caps: self.caps@,
        }
    }
}

impl CapSet {
    pub open spec fn wf(&self) -> bool {
        self@.root_cnode_bits < usize::BITS
    }

    /// Records a CapSet whose CNode of `2^root_cnode_bits` slots was retyped
    /// from `untyped_cap` and moved to `cnode_index` of the root CSpace; its
    /// slots from `start_index` on are handed out by a slot manager.
    pub fn new(cnode_index: usize, root_cnode_bits: usize, untyped_cap: u64, start_index: usize) -> (r: Self)
        requires
            root_cnode_bits < usize::BITS,
            ((cnode_index << root_cnode_bits) as int) + start_index <= usize::MAX,
            cnode_index + 1 <= usize::MAX,
        ensures
            r.wf(),
            r@ == (CapSetView {
                root_cnode: CNodePath { bits: cnode_index as u64, depth: (CSPACE_DEPTH - root_cnode_bits) as usize },
                root_cnode_bits,
                slot_range: (
                    ((cnode_index << root_cnode_bits) + start_index) as usize,
                    (((cnode_index + 1) as usize) << root_cnode_bits) as usize,
                ),
                untyped: untyped_cap,
                caps: Seq::empty(),
            }),
    {
        let slot_start_index = (cnode_index << root_cnode_bits) + start_index;
        let slot_end_index = (cnode_index + 1) << root_cnode_bits;
        CapSet {
            root_cnode: CNodePath { bits: cnode_index as u64, depth: CSPACE_DEPTH - root_cnode_bits },
            root_cnode_bits,
            slot_range: (slot_start_index, slot_end_index),
            untyped: untyped_cap,
            caps: Vec::new(),
        }
    }

    /// The range of global slot numbers the set's slot manager hands out.
    pub fn slot_range(&self) -> (r: (usize, usize))
        ensures
            r == self@.slot_range,
    {
        self.slot_range
    }

    /// The untyped capability objects are retyped from.
    pub fn untyped(&self) -> (r: u64)
        ensures
            r == self@.untyped,
    {
        self.untyped
    }

    /// Whether slot `index` of the set's CNode has a global slot number that
    /// fits in a `usize`.
    pub fn slot_fits(&self, index: usize) -> (r: bool)
        requires
            self.wf(),
        ensures
            r == (slot_number(self@.root_cnode.bits, self@.root_cnode_bits, index) <= usize::MAX),
    {
        ((self.root_cnode.bits as usize) << self.root_cnode_bits).checked_add(index).is_some()
    }

    /// Records the object just retyped into slot `index` of the set's CNode
    /// and returns its global slot number.
    pub fn record_object(&mut self, index: usize) -> (slot: usize)
        requires
            old(self).wf(),
            slot_number(old(self)@.root_cnode.bits, old(self)@.root_cnode_bits, index) <= usize::MAX,
        ensures
            final(self)@ == (CapSetView { caps: old(self)@.caps.push(index), ..old(self)@ }),
            slot == slot_number(old(self)@.root_cnode.bits, old(self)@.root_cnode_bits, index),
    {
        self.caps.push(index);
        ((self.root_cnode.bits as usize) << self.root_cnode_bits) + index
    }

    /// The global slot number of the CNode's capability to itself.
    pub fn root_cnode(&self) -> (slot: usize)
        requires
            self.wf(),
            slot_number(self@.root_cnode.bits, self@.root_cnode_bits, ROOT_CNODE_SELF_INDEX) <= usize::MAX,
        ensures
            slot == slot_number(self@.root_cnode.bits, self@.root_cnode_bits, ROOT_CNODE_SELF_INDEX),
    {
        ((self.root_cnode.bits as usize) << self.root_cnode_bits) + ROOT_CNODE_SELF_INDEX
    }

    /// The path of the set's CNode in the root CSpace.
    pub fn root_cnode_path(&self) -> (r: CNodePath)
        ensures
            r == self@.root_cnode,
    {
        self.root_cnode
    }

    /// The slot indices of every object allocated, in allocation order: the
    /// capabilities to revoke and delete when the set is dropped.
    pub fn drop(&self) -> (r: Vec<usize>)
        ensures
            r@ == self@.caps,
    {
        self.caps.clone()
    }

    /// Moves the set to a CNode reached through `root_cnode`, which must
    /// resolve exactly the set's CNode bits.
    pub fn migrate(&mut self, root_cnode: CNodePath)
        requires
            old(self)@.root_cnode_bits == CSPACE_DEPTH - root_cnode.depth,
        ensures
            final(self)@ == (CapSetView { root_cnode, ..old(self)@ }),
    {
        self.root_cnode = root_cnode;
    }
}

} // verus!
