//! The version string reported for the linked resvg library.

use vstd::prelude::*;
use crate::export::contains_nul;
use crate::export::nul_terminated;

verus! {

/// The bytes of the version of the resvg library this crate links, fixed
/// at build time: "0.48.1".
pub open spec fn version_bytes() -> Seq<u8> {
    seq![48u8, 46u8, 52u8, 56u8, 46u8, 49u8]
}

/// Builds the NUL-terminated version string handed out across the
/// boundary. Every call returns the same bytes.
pub fn version_string() -> (r: Vec<u8>)
    ensures
        nul_terminated(version_bytes(), r@),
{
    let mut buffer: Vec<u8> = Vec::new();
    buffer.push(48);
    buffer.push(46);
    buffer.push(52);
    buffer.push(56);
    buffer.push(46);
    buffer.push(49);
    buffer.push(0);
    proof {
        assert(buffer@ =~= version_bytes().push(0u8));
        lemma_version_bytes_wellformed();
    }
    buffer
}

/// The version string is non-empty and free of interior NUL bytes, so its
/// NUL-terminated form is a valid, non-empty C string.
pub proof fn lemma_version_bytes_wellformed()
    ensures
        version_bytes().len() > 0,
        !contains_nul(version_bytes()),
{
    assert forall|i: int| 0 <= i < version_bytes().len() implies version_bytes()[i] != 0 by {
        assert(version_bytes().len() == 6);
    }
}

} // verus!
