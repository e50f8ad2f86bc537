//! Exporting a render tree to a NUL-terminated XML byte buffer.
//!
//! The render tree itself is owned and serialized by resvg; this module
//! verifies everything around that call: that a successful export hands the
//! caller exactly the serialization followed by one terminating NUL byte,
//! and that a serialization holding an interior NUL byte is rejected with
//! `NotAnUtf8String` rather than silently truncated.

use vstd::prelude::*;
use crate::status::Status;

verus! {

/// Declares resvg's render-tree type, `usvg::Tree`, so that it can stand in
/// signatures. The tree is opaque here: it is built, owned and read only by
/// resvg.
#[verifier::external_type_specification]
#[verifier::external_body]
pub struct ExTree(resvg::usvg::Tree);

/// The bytes of resvg's default XML serialization of a render tree.
pub uninterp spec fn xml_of(tree: resvg::usvg::Tree) -> Seq<u8>;

/// Relies on usvg::Tree::to_string with default write options: it
/// serializes the tree to an XML string, a result that depends on the tree
/// alone.
#[verifier::external_body]
fn serialize_tree(tree: &resvg::usvg::Tree) -> (r: Vec<u8>)
    ensures
        r@ == xml_of(*tree),
{
    tree.to_string(&resvg::usvg::WriteOptions::default()).into_bytes()
}

/// Whether the byte sequence holds a NUL byte, which would make it
/// unrepresentable as a NUL-terminated C string.
pub open spec fn contains_nul(s: Seq<u8>) -> bool {
    exists|i: int| 0 <= i < s.len() && s[i] == 0
}

/// A well-formed exported buffer: the payload followed by exactly one
/// terminating NUL byte.
pub open spec fn nul_terminated(payload: Seq<u8>, buffer: Seq<u8>) -> bool {
    &&& !contains_nul(payload)
    &&& buffer == payload.push(0u8)
}

/// Turns a payload into a NUL-terminated buffer, rejecting payloads that a
/// terminating NUL could not delimit.
pub fn nul_terminate(payload: Vec<u8>) -> (r: Result<Vec<u8>, Status>)
    ensures
        r is Ok <==> !contains_nul(payload@),
        r matches Ok(buffer) ==> nul_terminated(payload@, buffer@),
        r matches Err(status) ==> status == Status::NotAnUtf8String,
{
    let mut i: usize = 0;
    while i < payload.len()
        invariant
            0 <= i <= payload@.len(),
            forall|j: int| 0 <= j < i ==> payload@[j] != 0,
        decreases payload@.len() - i,
    {
        if payload[i] == 0 {
            return Err(Status::NotAnUtf8String);
        }
        i = i + 1;
    }
    let mut buffer = payload;
    buffer.push(0);
    Ok(buffer)
}

/// Serializes the tree with resvg's default write options and terminates
/// the result with a NUL byte, as the export operation hands it to a C
/// caller.
pub fn export_tree(tree: &resvg::usvg::Tree) -> (r: Result<Vec<u8>, Status>)
    ensures
        r is Ok <==> !contains_nul(xml_of(*tree)),
        r matches Ok(buffer) ==> nul_terminated(xml_of(*tree), buffer@),
        r matches Err(status) ==> status == Status::NotAnUtf8String,
{
    nul_terminate(serialize_tree(tree))
}

} // verus!
