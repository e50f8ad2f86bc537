//! Model of the shim's observable behaviour at the C-ABI boundary.
//!
//! An export request arrives as two raw pointers: a render-tree handle and
//! an output slot that receives a pointer to the exported buffer. The
//! boundary layer itself cannot be verified — it dereferences raw pointers —
//! so it is kept to a mechanical pattern outside the library, and every
//! decision it takes is a verified function here. The spec functions below
//! say, for each combination of inputs, which status the caller sees and
//! what happens to the output slot; the proof functions state the
//! guarantees the shim gives its callers.

use vstd::prelude::*;
use crate::export::contains_nul;
use crate::export::export_tree;
use crate::export::xml_of;
use crate::status::Status;

verus! {

/// What an export request does to the caller's output slot.
pub enum SlotEffect {
    /// The slot is never written.
    Untouched,
    /// A null pointer is written into the slot.
    Nulled,
    /// A pointer to a freshly allocated buffer with these bytes is written
    /// into the slot, and ownership of the buffer passes to the caller.
    Fresh(Seq<u8>),
}

/// The status an export request returns, given whether each raw input was
/// null and the bytes the tree serializes to.
pub open spec fn export_status(tree_null: bool, slot_null: bool, xml: Seq<u8>) -> Status {
    if tree_null || slot_null {
        Status::ParsingFailed
    } else if contains_nul(xml) {
        Status::NotAnUtf8String
    } else {
        Status::Success
    }
}

/// What an export request does to the output slot, given the same inputs.
pub open spec fn export_slot_effect(tree_null: bool, slot_null: bool, xml: Seq<u8>) -> SlotEffect {
    if tree_null || slot_null {
        SlotEffect::Untouched
    } else if contains_nul(xml) {
        SlotEffect::Nulled
    } else {
        SlotEffect::Fresh(xml.push(0u8))
    }
}

/// Validates the two raw inputs of an export request before either is
/// dereferenced. `Some(status)` means the request is rejected with that
/// status and nothing further may be done with either pointer.
pub fn validate_export_inputs(tree_null: bool, slot_null: bool) -> (r: Option<Status>)
    ensures
        r is Some <==> (tree_null || slot_null),
        r matches Some(status) ==> status == Status::ParsingFailed,
        forall|xml: Seq<u8>|
            r matches Some(status) ==> #[trigger] export_status(tree_null, slot_null, xml) == status,
        forall|xml: Seq<u8>|
            r matches Some(status)
                ==> #[trigger] export_slot_effect(tree_null, slot_null, xml) == SlotEffect::Untouched,
{
    if tree_null || slot_null {
        Some(Status::ParsingFailed)
    } else {
        None
    }
}

/// Runs the export for a request whose two inputs passed validation and
/// says what the boundary reports: the status handed back to the caller,
/// and the buffer whose pointer is written into the slot, or `None` when a
/// null pointer is written instead. This ties the executable export path
/// to the model above.
pub fn decide_export(tree: &resvg::usvg::Tree) -> (r: (Status, Option<Vec<u8>>))
    ensures
        r.0 == export_status(false, false, xml_of(*tree)),
        r.1 is Some <==> r.0 == Status::Success,
        r.1 matches Some(buffer)
            ==> export_slot_effect(false, false, xml_of(*tree)) == SlotEffect::Fresh(buffer@),
        r.1 is None ==> export_slot_effect(false, false, xml_of(*tree)) == SlotEffect::Nulled,
{
    match export_tree(tree) {
        Ok(buffer) => (Status::Success, Some(buffer)),
        Err(status) => (status, None),
    }
}

/// Whether the release operation deallocates, as a function of the one
/// observation it makes of its input.
pub open spec fn spec_should_release(ptr_null: bool) -> bool {
    !ptr_null
}

/// Decides whether a buffer pointer handed to the release operation is to
/// be deallocated: a null pointer is a no-op, anything else is released.
pub fn should_release(ptr_null: bool) -> (r: bool)
    ensures
        r == spec_should_release(ptr_null),
{
    !ptr_null
}

/// A null tree handle is rejected with `ParsingFailed` for every value of
/// the output slot, and the slot is never written.
pub proof fn lemma_null_tree_rejected(slot_null: bool, xml: Seq<u8>)
    ensures
        export_status(true, slot_null, xml) == Status::ParsingFailed,
        export_slot_effect(true, slot_null, xml) == SlotEffect::Untouched,
{
}

/// A null output slot is rejected with `ParsingFailed`, and the outcome is
/// the same whatever the tree would serialize to: the tree handle is never
/// dereferenced on this path.
pub proof fn lemma_null_slot_rejected(tree_null: bool, xml_a: Seq<u8>, xml_b: Seq<u8>)
    ensures
        export_status(tree_null, true, xml_a) == Status::ParsingFailed,
        export_slot_effect(tree_null, true, xml_a) == SlotEffect::Untouched,
        export_status(tree_null, true, xml_a) == export_status(tree_null, true, xml_b),
        export_slot_effect(tree_null, true, xml_a) == export_slot_effect(tree_null, true, xml_b),
{
}

/// With both inputs present, the outcome is decided by the serialization
/// alone: a serialization free of NUL bytes succeeds and the caller's slot
/// receives exactly those bytes followed by one terminating NUL; one
/// holding a NUL byte fails with `NotAnUtf8String` and the slot is nulled.
/// Both branches are functions of the serialized bytes, so exporting the
/// same unmodified tree twice yields byte-identical buffers.
pub proof fn lemma_export_decided_by_serialization(xml: Seq<u8>)
    ensures
        !contains_nul(xml) ==> export_status(false, false, xml) == Status::Success,
        !contains_nul(xml) ==> export_slot_effect(false, false, xml) == SlotEffect::Fresh(xml.push(0u8)),
        contains_nul(xml) ==> export_status(false, false, xml) == Status::NotAnUtf8String,
        contains_nul(xml) ==> export_slot_effect(false, false, xml) == SlotEffect::Nulled,
{
}

/// Releasing a null pointer is a no-op: nothing is deallocated and nothing
/// else is observed of the input.
pub proof fn lemma_release_null_is_noop()
    ensures
        !spec_should_release(true),
{
}

} // verus!
