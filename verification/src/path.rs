//! Derivation of a slot image's device path from the path of the running
//! loader.
//!
//! A device path is an ordered sequence of nodes identifying a file on a
//! specific storage device.  The derivation keeps every node up to the
//! first file-name node — "the same device the running loader was launched
//! from" — and replaces the rest with one file-name node carrying the
//! slot's fixed file name.

use vstd::prelude::*;
use crate::slot::ValidSlot;

verus! {

/// One node of a device path.  Only file-name nodes carry meaning here;
/// every other node is copied through unchanged, so their contents are
/// kept as plain values.
#[derive(PartialEq, Eq, Debug)]
pub enum PathNode {
    /// A node naming a volume (a partition) by its index.
    Volume(u32),
    /// A media node naming a file on the volume the preceding nodes
    /// identify.
    FilePath(String),
    /// Any other node: its type, sub-type and payload, carried through
    /// untouched.
    Other(u8, u8, Vec<u8>),
}

impl PathNode {
    /// Whether this node names a file.
    pub open spec fn spec_is_file_path(self) -> bool {
        self is FilePath
    }

    /// Returns whether this node names a file.
    pub fn is_file_path(&self) -> (r: bool)
        ensures
            r == self.spec_is_file_path(),
    {
        match self {
            PathNode::FilePath(_) => true,
            _ => false,
        }
    }
}

/// The fixed file name of a slot's boot image, relative to the volume the
/// loader itself was launched from.
pub open spec fn spec_slot_file_name(slot: ValidSlot) -> Seq<char> {
    match slot {
        ValidSlot::A => "\\EFI\\metropolis\\boot-a.efi"@,
        ValidSlot::B => "\\EFI\\metropolis\\boot-b.efi"@,
    }
}

/// Returns the fixed file name of a slot's boot image.
pub fn slot_file_name(slot: ValidSlot) -> (r: String)
    ensures
        r@ == spec_slot_file_name(slot),
{
    match slot {
        ValidSlot::A => String::from_str("\\EFI\\metropolis\\boot-a.efi"),
        ValidSlot::B => String::from_str("\\EFI\\metropolis\\boot-b.efi"),
    }
}

/// The split point of a node sequence, scanning from `i`: the index of the
/// first file-name node at or after `i`, or the sequence's length if none
/// exists.
pub open spec fn spec_split_point_from(nodes: Seq<PathNode>, i: int) -> int
    decreases nodes.len() - i,
    when 0 <= i <= nodes.len()
{
    if i == nodes.len() {
        i
    } else if nodes[i].spec_is_file_path() {
        i
    } else {
        spec_split_point_from(nodes, i + 1)
    }
}

/// The split point of a node sequence: the index of its first file-name
/// node, or its length if it has none.
pub open spec fn spec_split_point(nodes: Seq<PathNode>) -> int {
    spec_split_point_from(nodes, 0)
}

/// The split point lies in bounds, nothing before it names a file, and
/// the node there — if any — names a file.
pub proof fn lemma_split_point(nodes: Seq<PathNode>, i: int)
    requires
        0 <= i <= nodes.len(),
    ensures
        i <= spec_split_point_from(nodes, i) <= nodes.len(),
        forall|j: int|
            i <= j < spec_split_point_from(nodes, i) ==> !nodes[j].spec_is_file_path(),
        spec_split_point_from(nodes, i) < nodes.len() ==> nodes[spec_split_point_from(
            nodes,
            i,
        )].spec_is_file_path(),
    decreases nodes.len() - i,
{
    if i < nodes.len() && !nodes[i].spec_is_file_path() {
        lemma_split_point(nodes, i + 1);
    }
}

/// Derives the device path of `slot`'s boot image from the device path of
/// the running loader: every node before the first file-name node is kept,
/// and a single file-name node with the slot's fixed file name replaces
/// the rest.
pub fn resolve_image_path(nodes: Vec<PathNode>, slot: ValidSlot) -> (r: Vec<PathNode>)
    ensures
        ({
            let k = spec_split_point(nodes@);
            &&& r@.len() == k + 1
            &&& r@.subrange(0, k) == nodes@.subrange(0, k)
            &&& r@[k] matches PathNode::FilePath(name) && name@ == spec_slot_file_name(slot)
        }),
{
    let mut nodes = nodes;
    let ghost entire = nodes@;
    let mut k: usize = 0;
    while k < nodes.len() && !nodes[k].is_file_path()
        invariant
            nodes@ == entire,
            0 <= k <= nodes@.len(),
            spec_split_point_from(nodes@, k as int) == spec_split_point(nodes@),
        decreases nodes@.len() - k,
    {
        k = k + 1;
    }
    proof {
        lemma_split_point(entire, k as int);
        assert(spec_split_point(entire) == k as int);
    }
    nodes.truncate(k);
    nodes.push(PathNode::FilePath(slot_file_name(slot)));
    proof {
        assert(nodes@.subrange(0, k as int) =~= entire.subrange(0, k as int));
    }
    nodes
}

} // verus!
