//! Structured metadata produced by the external compilation step: byte
//! regions inside recompiled code that are allowed to differ from the
//! on-chain code, and the auxiliary data needed to validate them.

use vstd::prelude::*;

verus! {

/// A contiguous byte range inside a code sequence, given as offset and length.
#[derive(Clone, Copy, Debug, PartialEq, Eq, Structural)]
pub struct Region {
    pub offset: usize,
    pub length: usize,
}

/// Holds when the region lies entirely inside a sequence of length `len`.
pub open spec fn region_in_bounds(r: Region, len: nat) -> bool {
    r.offset + r.length <= len
}

/// Holds when index `i` falls inside the region.
pub open spec fn in_region(r: Region, i: int) -> bool {
    r.offset <= i < r.offset + r.length
}

/// Holds when every region of the sequence lies inside a sequence of length `len`.
pub open spec fn regions_in_bounds(rs: Seq<Region>, len: nat) -> bool {
    forall|k: int| 0 <= k < rs.len() ==> region_in_bounds(#[trigger] rs[k], len)
}

/// Holds when index `i` falls inside at least one region of the sequence.
pub open spec fn in_some_region(rs: Seq<Region>, i: int) -> bool {
    exists|k: int| 0 <= k < rs.len() && in_region(#[trigger] rs[k], i)
}

/// Holds when an optional region, if declared, lies inside a sequence of
/// length `len`.
pub open spec fn opt_region_in_bounds(r: Option<Region>, len: nat) -> bool {
    match r {
        None => true,
        Some(region) => region_in_bounds(region, len),
    }
}

/// Holds when index `i` falls inside the optional region.
pub open spec fn in_opt_region(r: Option<Region>, i: int) -> bool {
    match r {
        None => false,
        Some(region) => in_region(region, i),
    }
}

/// The declared region as a sequence: empty when absent, a single element
/// when declared.
pub open spec fn opt_region_seq(r: Option<Region>) -> Seq<Region> {
    match r {
        None => Seq::empty(),
        Some(region) => seq![region],
    }
}

/// Global metadata about the compiled unit. `settings_digest` records the
/// bytes the compiler embedded into the metadata-hash region of the
/// recompiled creation code; creation-code matching validates the declared
/// region against it before masking.
#[derive(Clone, Debug, PartialEq, Eq)]
pub struct CompilationArtifacts {
    pub settings_digest: Vec<u8>,
}

/// Regions of the creation code that are deployment-time-only: the encoded
/// constructor arguments and the metadata-hash region.
#[derive(Clone, Copy, Debug, PartialEq, Eq, Structural)]
pub struct CreationCodeArtifacts {
    pub constructor_arguments: Option<Region>,
    pub metadata_hash: Option<Region>,
}

/// Regions of the runtime code that are deploy-time substitutions: the
/// immutable-reference slots and the metadata-hash region.
#[derive(Clone, Debug, PartialEq, Eq)]
pub struct RuntimeCodeArtifacts {
    pub immutable_references: Vec<Region>,
    pub metadata_hash: Option<Region>,
}

/// The three artifact parts produced by one compilation, bundled for use
/// across a whole batch of targets.
#[derive(Clone, Debug, PartialEq, Eq)]
pub struct ArtifactSet {
    pub compilation: CompilationArtifacts,
    pub creation_code: CreationCodeArtifacts,
    pub runtime_code: RuntimeCodeArtifacts,
}

/// Decides whether the region lies inside a sequence of length `len`.
pub fn region_within(r: Region, len: usize) -> (b: bool)
    ensures
        b == region_in_bounds(r, len as nat),
{
    r.offset <= len && r.length <= len - r.offset
}

/// Decides whether every region of the vector lies inside a sequence of
/// length `len`.
pub fn regions_within(rs: &Vec<Region>, len: usize) -> (b: bool)
    ensures
        b == regions_in_bounds(rs@, len as nat),
{
    let mut i: usize = 0;
    while i < rs.len()
        invariant
            i <= rs@.len(),
            forall|k: int| 0 <= k < i ==> region_in_bounds(#[trigger] rs@[k], len as nat),
        decreases rs@.len() - i,
    {
        if !region_within(rs[i], len) {
            return false;
        }
        i = i + 1;
    }
    true
}

/// Decides whether the optional region, if declared, lies inside a sequence
/// of length `len`.
pub fn opt_region_within(r: &Option<Region>, len: usize) -> (b: bool)
    ensures
        b == opt_region_in_bounds(*r, len as nat),
{
    match r {
        None => true,
        Some(region) => region_within(*region, len),
    }
}

} // verus!
