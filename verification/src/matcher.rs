//! The code-matching engine: classifies a pair of byte sequences (on-chain
//! versus recompiled) as a full match, a partial match modulo declared and
//! auditable normalizations, or no match.
//!
//! Matching never tolerates a length mismatch and never guesses at a prefix
//! or suffix: the single structural strip it performs is the declared
//! blueprint preamble. A malformed artifact (a region reaching past the end
//! of the code) is reported as an error so the caller can downgrade it to
//! "no match" — matching never fails open to "match".

use vstd::prelude::*;

use crate::artifacts::{
    in_opt_region, in_region, in_some_region, opt_region_in_bounds, opt_region_seq,
    opt_region_within, region_in_bounds, regions_in_bounds, regions_within,
    CompilationArtifacts, CreationCodeArtifacts, Region, RuntimeCodeArtifacts,
};

verus! {

/// The byte written over the metadata-hash region of both sequences before
/// they are compared: its content is build-dependent and excluded from
/// code identity.
pub const METADATA_MASK_BYTE: u8 = 0;

/// The kind of normalization applied to one region during matching.
#[derive(Clone, Copy, Debug, PartialEq, Eq, Structural)]
pub enum TransformationKind {
    /// An immutable-reference slot of the recompiled runtime code was
    /// overwritten with the on-chain bytes at the same offset.
    ImmutableSubstitution,
    /// The constructor-argument region of the recompiled creation code was
    /// overwritten with the on-chain bytes at the same offset.
    ConstructorSubstitution,
    /// The metadata-hash region was masked to a fixed sentinel in both
    /// sequences.
    MetadataMask,
}

/// One recorded normalization: which region was touched and the on-chain
/// bytes found there, so a caller can render an audit trail.
#[derive(Clone, Debug, PartialEq, Eq)]
pub struct Transformation {
    pub kind: TransformationKind,
    pub region: Region,
    pub value: Vec<u8>,
}

/// The mathematical value of one recorded normalization.
pub ghost struct TransformationModel {
    pub kind: TransformationKind,
    pub region: Region,
    pub value: Seq<u8>,
}

impl View for Transformation {
    type V = TransformationModel;

    open spec fn view(&self) -> TransformationModel {
        TransformationModel { kind: self.kind, region: self.region, value: self.value@ }
    }
}

/// The mathematical values of a sequence of recorded normalizations.
pub open spec fn transformation_models(ts: Seq<Transformation>) -> Seq<TransformationModel> {
    ts.map_values(|t: Transformation| t@)
}

/// The result of a successful comparison: byte-exact, or equal only after
/// the recorded normalizations.
#[derive(Clone, Debug, PartialEq, Eq)]
pub enum Match {
    Full,
    Partial { transformations: Vec<Transformation> },
}

/// The mathematical value of a `Match`.
pub ghost enum MatchModel {
    Full,
    Partial { transformations: Seq<TransformationModel> },
}

impl View for Match {
    type V = MatchModel;

    open spec fn view(&self) -> MatchModel {
        match self {
            Match::Full => MatchModel::Full,
            Match::Partial { transformations } => MatchModel::Partial {
                transformations: transformation_models(transformations@),
            },
        }
    }
}

/// The normalizations a match records: none for a full match.
pub open spec fn match_transformations(m: MatchModel) -> Seq<TransformationModel> {
    match m {
        MatchModel::Full => Seq::empty(),
        MatchModel::Partial { transformations } => transformations,
    }
}

/// A malformed or inconsistent artifact discovered while matching. The
/// caller downgrades it to "no match"; it is never upgraded to a match.
#[derive(Clone, Copy, Debug, PartialEq, Eq, Structural)]
pub enum ArtifactError {
    /// A declared region reaches past the end of the code it describes.
    RegionOutOfBounds,
    /// The metadata-hash region of the recompiled creation code does not
    /// hold the digest recorded in the compilation artifacts.
    MetadataDigestMismatch,
}

/// The mathematical value of an optional match.
pub open spec fn opt_match_model(m: Option<Match>) -> Option<MatchModel> {
    match m {
        None => None,
        Some(matched) => Some(matched@),
    }
}

/// The mathematical value of a matching outcome.
pub open spec fn result_model(r: Result<Option<Match>, ArtifactError>) -> Result<
    Option<MatchModel>,
    ArtifactError,
> {
    match r {
        Ok(m) => Ok(opt_match_model(m)),
        Err(e) => Err(e),
    }
}

/// The bytes of `s` inside the region.
pub open spec fn region_bytes(s: Seq<u8>, r: Region) -> Seq<u8> {
    s.subrange(r.offset as int, r.offset + r.length)
}

/// `base` with the region overwritten by the bytes of `source` at the same
/// offsets.
pub open spec fn substitute_region(base: Seq<u8>, source: Seq<u8>, r: Region) -> Seq<u8> {
    Seq::new(base.len(), |i: int| if in_region(r, i) { source[i] } else { base[i] })
}

/// `base` with every region of `rs` overwritten by the bytes of `source`
/// at the same offsets, applied in order.
pub open spec fn substitute_regions(base: Seq<u8>, source: Seq<u8>, rs: Seq<Region>) -> Seq<u8>
    decreases rs.len(),
{
    if rs.len() == 0 {
        base
    } else {
        substitute_region(substitute_regions(base, source, rs.drop_last()), source, rs.last())
    }
}

/// `s` with the region forced to the mask sentinel.
pub open spec fn mask_region(s: Seq<u8>, r: Region) -> Seq<u8> {
    Seq::new(s.len(), |i: int| if in_region(r, i) { METADATA_MASK_BYTE } else { s[i] })
}

/// `s` with the metadata-hash region, if one is declared, forced to the
/// mask sentinel.
pub open spec fn mask_metadata(s: Seq<u8>, metadata: Option<Region>) -> Seq<u8> {
    match metadata {
        None => s,
        Some(r) => mask_region(s, r),
    }
}

/// The recorded substitution for one region: the on-chain bytes found there.
pub open spec fn substitution_transformation(
    kind: TransformationKind,
    on_chain: Seq<u8>,
    r: Region,
) -> TransformationModel {
    TransformationModel { kind, region: r, value: region_bytes(on_chain, r) }
}

/// The recorded substitutions for the regions of `rs`, in declaration order.
pub open spec fn substitution_transformations(
    kind: TransformationKind,
    on_chain: Seq<u8>,
    rs: Seq<Region>,
) -> Seq<TransformationModel>
    decreases rs.len(),
{
    if rs.len() == 0 {
        Seq::empty()
    } else {
        substitution_transformations(kind, on_chain, rs.drop_last()).push(
            substitution_transformation(kind, on_chain, rs.last()),
        )
    }
}

/// The recorded mask for the metadata-hash region, if one is declared: the
/// on-chain bytes that were masked out.
pub open spec fn metadata_transformations(
    on_chain: Seq<u8>,
    metadata: Option<Region>,
) -> Seq<TransformationModel> {
    match metadata {
        None => Seq::empty(),
        Some(r) => seq![
            TransformationModel {
                kind: TransformationKind::MetadataMask,
                region: r,
                value: region_bytes(on_chain, r),
            },
        ],
    }
}

/// Every normalization recorded for one comparison: the substitutions in
/// declaration order, the metadata mask last.
pub open spec fn normalization_transformations(
    kind: TransformationKind,
    on_chain: Seq<u8>,
    subs: Seq<Region>,
    metadata: Option<Region>,
) -> Seq<TransformationModel> {
    substitution_transformations(kind, on_chain, subs) + metadata_transformations(
        on_chain,
        metadata,
    )
}

/// The recompiled bytes after normalization: substitution regions
/// overwritten with on-chain bytes, metadata-hash region masked.
pub open spec fn normalized_recompiled(
    on_chain: Seq<u8>,
    recompiled: Seq<u8>,
    subs: Seq<Region>,
    metadata: Option<Region>,
) -> Seq<u8> {
    mask_metadata(substitute_regions(recompiled, on_chain, subs), metadata)
}

/// The on-chain bytes after normalization: only the metadata-hash region
/// is masked.
pub open spec fn normalized_on_chain(on_chain: Seq<u8>, metadata: Option<Region>) -> Seq<u8> {
    mask_metadata(on_chain, metadata)
}

/// The outcome of comparing the normalized sequences: a partial match
/// carrying the recorded normalizations, or no match.
pub open spec fn partial_or_none(
    on_chain: Seq<u8>,
    recompiled: Seq<u8>,
    kind: TransformationKind,
    subs: Seq<Region>,
    metadata: Option<Region>,
) -> Option<MatchModel> {
    if normalized_recompiled(on_chain, recompiled, subs, metadata) == normalized_on_chain(
        on_chain,
        metadata,
    ) {
        Some(
            MatchModel::Partial {
                transformations: normalization_transformations(kind, on_chain, subs, metadata),
            },
        )
    } else {
        None
    }
}

/// The shared shape of every comparison: a length mismatch never matches,
/// byte-exact equality is a full match, an out-of-bounds region is an
/// artifact error, and otherwise the normalized sequences decide between a
/// partial match and no match.
pub open spec fn match_code_model(
    on_chain: Seq<u8>,
    recompiled: Seq<u8>,
    kind: TransformationKind,
    subs: Seq<Region>,
    metadata: Option<Region>,
) -> Result<Option<MatchModel>, ArtifactError> {
    if on_chain.len() != recompiled.len() {
        Ok(None)
    } else if on_chain == recompiled {
        Ok(Some(MatchModel::Full))
    } else if !(regions_in_bounds(subs, on_chain.len()) && opt_region_in_bounds(
        metadata,
        on_chain.len(),
    )) {
        Err(ArtifactError::RegionOutOfBounds)
    } else {
        Ok(partial_or_none(on_chain, recompiled, kind, subs, metadata))
    }
}

/// What runtime-code matching returns, as a function of the byte sequences
/// and the declared runtime artifacts.
pub open spec fn match_runtime_model(
    on_chain: Seq<u8>,
    recompiled: Seq<u8>,
    immutable_references: Seq<Region>,
    metadata: Option<Region>,
) -> Result<Option<MatchModel>, ArtifactError> {
    match_code_model(
        on_chain,
        recompiled,
        TransformationKind::ImmutableSubstitution,
        immutable_references,
        metadata,
    )
}

/// Holds when the declared metadata-hash region of the recompiled creation
/// code carries exactly the digest recorded in the compilation artifacts.
pub open spec fn creation_metadata_consistent(
    recompiled: Seq<u8>,
    metadata: Option<Region>,
    digest: Seq<u8>,
) -> bool {
    match metadata {
        None => true,
        Some(r) => region_bytes(recompiled, r) == digest,
    }
}

/// What creation-code matching returns: the shared shape, with the
/// additional validation of the creation code's auxiliary data against the
/// compilation artifacts before the region is masked.
pub open spec fn match_creation_model(
    on_chain: Seq<u8>,
    recompiled: Seq<u8>,
    constructor_arguments: Option<Region>,
    metadata: Option<Region>,
    digest: Seq<u8>,
) -> Result<Option<MatchModel>, ArtifactError> {
    if on_chain.len() != recompiled.len() {
        Ok(None)
    } else if on_chain == recompiled {
        Ok(Some(MatchModel::Full))
    } else if !(opt_region_in_bounds(constructor_arguments, on_chain.len())
        && opt_region_in_bounds(metadata, on_chain.len())) {
        Err(ArtifactError::RegionOutOfBounds)
    } else if !creation_metadata_consistent(recompiled, metadata, digest) {
        Err(ArtifactError::MetadataDigestMismatch)
    } else {
        Ok(
            partial_or_none(
                on_chain,
                recompiled,
                TransformationKind::ConstructorSubstitution,
                opt_region_seq(constructor_arguments),
                metadata,
            ),
        )
    }
}

/// The big-endian value of a byte sequence.
pub open spec fn be_value(s: Seq<u8>) -> nat
    decreases s.len(),
{
    if s.len() == 0 {
        0
    } else {
        (be_value(s.drop_last()) * 256 + s.last()) as nat
    }
}

/// The creation code embedded in a blueprint initcode, if the initcode is
/// framed as one: a two-byte format marker, a version byte whose low two
/// bits give the width of the big-endian data-length header, the header,
/// the creation code, and a trailing data section of the declared length.
pub open spec fn blueprint_body(initcode: Seq<u8>) -> Option<Seq<u8>> {
    if initcode.len() < 3 {
        None
    } else if initcode[0] != 0xFE || initcode[1] != 0x71 {
        None
    } else {
        let width = (initcode[2] & 0x03) as int;
        if initcode.len() < 3 + width {
            None
        } else {
            let data_len = be_value(initcode.subrange(3, 3 + width)) as int;
            if initcode.len() < 3 + width + data_len {
                None
            } else {
                Some(initcode.subrange(3 + width, initcode.len() - data_len))
            }
        }
    }
}

/// What blueprint-creation matching returns: an initcode that is not framed
/// as a blueprint never matches; otherwise the embedded creation code is
/// compared exactly as creation code is, without the auxiliary-data
/// validation, which needs the compilation artifacts that a blueprint
/// comparison does not take.
pub open spec fn match_blueprint_model(
    initcode: Seq<u8>,
    recompiled: Seq<u8>,
    constructor_arguments: Option<Region>,
    metadata: Option<Region>,
) -> Result<Option<MatchModel>, ArtifactError> {
    match blueprint_body(initcode) {
        None => Ok(None),
        Some(creation) => match_code_model(
            creation,
            recompiled,
            TransformationKind::ConstructorSubstitution,
            opt_region_seq(constructor_arguments),
            metadata,
        ),
    }
}

/// Decides byte-for-byte equality of two byte vectors.
pub fn bytes_equal(a: &Vec<u8>, b: &Vec<u8>) -> (r: bool)
    ensures
        r == (a@ == b@),
{
    if a.len() != b.len() {
        return false;
    }
    let mut i: usize = 0;
    while i < a.len()
        invariant
            i <= a@.len(),
            a@.len() == b@.len(),
            forall|j: int| 0 <= j < i ==> a@[j] == b@[j],
        decreases a@.len() - i,
    {
        if a[i] != b[i] {
            return false;
        }
        i = i + 1;
    }
    proof {
        assert(a@ =~= b@);
    }
    true
}

/// Copies a byte vector.
pub fn copy_bytes(src: &Vec<u8>) -> (v: Vec<u8>)
    ensures
        v@ == src@,
{
    let mut v: Vec<u8> = Vec::new();
    let mut i: usize = 0;
    while i < src.len()
        invariant
            i <= src@.len(),
            v@.len() == i,
            forall|j: int| 0 <= j < i ==> v@[j] == src@[j],
        decreases src@.len() - i,
    {
        v.push(src[i]);
        i = i + 1;
    }
    proof {
        assert(v@ =~= src@);
    }
    v
}

/// Copies the bytes of `src` inside the region.
pub fn region_slice(src: &Vec<u8>, r: Region) -> (v: Vec<u8>)
    requires
        region_in_bounds(r, src@.len()),
    ensures
        v@ == region_bytes(src@, r),
{
    let n = src.len();
    let mut v: Vec<u8> = Vec::new();
    let mut i: usize = 0;
    while i < r.length
        invariant
            i <= r.length,
            region_in_bounds(r, src@.len()),
            r.offset + r.length <= n,
            n == src@.len(),
            v@.len() == i,
            forall|j: int| 0 <= j < i ==> v@[j] == src@[r.offset + j],
        decreases r.length - i,
    {
        v.push(src[r.offset + i]);
        i = i + 1;
    }
    proof {
        assert(v@ =~= region_bytes(src@, r));
    }
    v
}

/// Overwrites the region of `dst` with the bytes of `src` at the same
/// offsets.
fn overwrite_region(dst: &mut Vec<u8>, src: &Vec<u8>, r: Region)
    requires
        old(dst)@.len() == src@.len(),
        region_in_bounds(r, src@.len()),
    ensures
        final(dst)@ == substitute_region(old(dst)@, src@, r),
{
    let ghost dst0 = dst@;
    let n = src.len();
    let mut i: usize = 0;
    while i < r.length
        invariant
            i <= r.length,
            region_in_bounds(r, src@.len()),
            r.offset + r.length <= n,
            n == src@.len(),
            dst@.len() == dst0.len(),
            dst0.len() == src@.len(),
            forall|j: int|
                0 <= j < dst@.len() ==> dst@[j] == if r.offset <= j < r.offset + i {
                    src@[j]
                } else {
                    dst0[j]
                },
        decreases r.length - i,
    {
        let idx = r.offset + i;
        let byte = src[idx];
        dst.set(idx, byte);
        i = i + 1;
    }
    proof {
        assert(dst@ =~= substitute_region(dst0, src@, r));
    }
}

/// Forces the region of `v` to the mask sentinel.
fn mask_region_in(v: &mut Vec<u8>, r: Region)
    requires
        region_in_bounds(r, old(v)@.len()),
    ensures
        final(v)@ == mask_region(old(v)@, r),
{
    let ghost v0 = v@;
    let n = v.len();
    let mut i: usize = 0;
    while i < r.length
        invariant
            i <= r.length,
            region_in_bounds(r, v0.len()),
            r.offset + r.length <= n,
            n == v0.len(),
            v@.len() == v0.len(),
            forall|j: int|
                0 <= j < v@.len() ==> v@[j] == if r.offset <= j < r.offset + i {
                    METADATA_MASK_BYTE
                } else {
                    v0[j]
                },
        decreases r.length - i,
    {
        let idx = r.offset + i;
        v.set(idx, METADATA_MASK_BYTE);
        i = i + 1;
    }
    proof {
        assert(v@ =~= mask_region(v0, r));
    }
}

/// The declared region as a vector: empty when absent.
fn opt_region_vec(r: &Option<Region>) -> (v: Vec<Region>)
    ensures
        v@ == opt_region_seq(*r),
{
    let mut v: Vec<Region> = Vec::new();
    match r {
        None => {},
        Some(region) => {
            v.push(*region);
        },
    }
    proof {
        assert(v@ =~= opt_region_seq(*r));
    }
    v
}

/// Normalizes both sequences and compares them: overwrites every declared
/// substitution region of the recompiled code with the on-chain bytes,
/// masks the metadata-hash region in both, records each step, and compares.
fn normalize_and_compare(
    on_chain: &Vec<u8>,
    recompiled: &Vec<u8>,
    kind: TransformationKind,
    subs: &Vec<Region>,
    metadata: Option<Region>,
) -> (r: Option<Match>)
    requires
        on_chain@.len() == recompiled@.len(),
        regions_in_bounds(subs@, on_chain@.len()),
        opt_region_in_bounds(metadata, on_chain@.len()),
    ensures
        opt_match_model(r) == partial_or_none(on_chain@, recompiled@, kind, subs@, metadata),
{
    let mut normalized_rec = copy_bytes(recompiled);
    let mut transformations: Vec<Transformation> = Vec::new();
    let mut i: usize = 0;
    while i < subs.len()
        invariant
            i <= subs@.len(),
            on_chain@.len() == recompiled@.len(),
            regions_in_bounds(subs@, on_chain@.len()),
            normalized_rec@ == substitute_regions(recompiled@, on_chain@, subs@.take(i as int)),
            normalized_rec@.len() == recompiled@.len(),
            transformation_models(transformations@) == substitution_transformations(
                kind,
                on_chain@,
                subs@.take(i as int),
            ),
        decreases subs@.len() - i,
    {
        let region = subs[i];
        let ghost prev_rec = normalized_rec@;
        let ghost prev_trans = transformations@;
        overwrite_region(&mut normalized_rec, on_chain, region);
        let value = region_slice(on_chain, region);
        transformations.push(Transformation { kind, region, value });
        proof {
            let taken = subs@.take(i + 1);
            assert(taken.drop_last() =~= subs@.take(i as int));
            assert(taken.last() == subs@[i as int]);
            assert(normalized_rec@ == substitute_regions(recompiled@, on_chain@, taken));
            assert(substitution_transformations(kind, on_chain@, taken)
                == substitution_transformations(kind, on_chain@, subs@.take(i as int)).push(
                substitution_transformation(kind, on_chain@, subs@[i as int]),
            ));
            assert(transformation_models(transformations@) =~= substitution_transformations(
                kind,
                on_chain@,
                taken,
            ));
        }
        i = i + 1;
    }
    proof {
        assert(subs@.take(subs@.len() as int) =~= subs@);
    }
    let mut normalized_onc = copy_bytes(on_chain);
    match metadata {
        None => {
            proof {
                assert(transformation_models(transformations@) =~= normalization_transformations(
                    kind,
                    on_chain@,
                    subs@,
                    metadata,
                ));
            }
        },
        Some(region) => {
            mask_region_in(&mut normalized_rec, region);
            mask_region_in(&mut normalized_onc, region);
            let value = region_slice(on_chain, region);
            transformations.push(
                Transformation { kind: TransformationKind::MetadataMask, region, value },
            );
            proof {
                assert(transformation_models(transformations@) =~= normalization_transformations(
                    kind,
                    on_chain@,
                    subs@,
                    metadata,
                ));
            }
        },
    }
    proof {
        assert(normalized_rec@ == normalized_recompiled(on_chain@, recompiled@, subs@, metadata));
        assert(normalized_onc@ == normalized_on_chain(on_chain@, metadata));
    }
    if bytes_equal(&normalized_rec, &normalized_onc) {
        Some(Match::Partial { transformations })
    } else {
        None
    }
}

/// The shared executable comparison behind runtime and blueprint matching.
fn match_code(
    on_chain: &Vec<u8>,
    recompiled: &Vec<u8>,
    kind: TransformationKind,
    subs: &Vec<Region>,
    metadata: Option<Region>,
) -> (r: Result<Option<Match>, ArtifactError>)
    ensures
        result_model(r) == match_code_model(on_chain@, recompiled@, kind, subs@, metadata),
{
    if on_chain.len() != recompiled.len() {
        return Ok(None);
    }
    if bytes_equal(on_chain, recompiled) {
        return Ok(Some(Match::Full));
    }
    if !regions_within(subs, on_chain.len()) {
        return Err(ArtifactError::RegionOutOfBounds);
    }
    if !opt_region_within(&metadata, on_chain.len()) {
        return Err(ArtifactError::RegionOutOfBounds);
    }
    Ok(normalize_and_compare(on_chain, recompiled, kind, subs, metadata))
}

/// Compares on-chain runtime code against recompiled runtime code, modulo
/// the declared immutable-reference slots and metadata-hash region.
pub fn match_runtime(
    on_chain: &Vec<u8>,
    recompiled: &Vec<u8>,
    artifacts: &RuntimeCodeArtifacts,
) -> (r: Result<Option<Match>, ArtifactError>)
    ensures
        result_model(r) == match_runtime_model(
            on_chain@,
            recompiled@,
            artifacts.immutable_references@,
            artifacts.metadata_hash,
        ),
{
    match_code(
        on_chain,
        recompiled,
        TransformationKind::ImmutableSubstitution,
        &artifacts.immutable_references,
        artifacts.metadata_hash,
    )
}

/// Compares on-chain creation code against recompiled creation code, modulo
/// the declared constructor-argument region and metadata-hash region; the
/// metadata-hash region of the recompiled code is validated against the
/// digest recorded in the compilation artifacts before it is masked.
pub fn match_creation(
    on_chain: &Vec<u8>,
    recompiled: &Vec<u8>,
    creation_artifacts: &CreationCodeArtifacts,
    compilation_artifacts: &CompilationArtifacts,
) -> (r: Result<Option<Match>, ArtifactError>)
    ensures
        result_model(r) == match_creation_model(
            on_chain@,
            recompiled@,
            creation_artifacts.constructor_arguments,
            creation_artifacts.metadata_hash,
            compilation_artifacts.settings_digest@,
        ),
{
    if on_chain.len() != recompiled.len() {
        return Ok(None);
    }
    if bytes_equal(on_chain, recompiled) {
        return Ok(Some(Match::Full));
    }
    if !opt_region_within(&creation_artifacts.constructor_arguments, on_chain.len()) {
        return Err(ArtifactError::RegionOutOfBounds);
    }
    if !opt_region_within(&creation_artifacts.metadata_hash, on_chain.len()) {
        return Err(ArtifactError::RegionOutOfBounds);
    }
    match creation_artifacts.metadata_hash {
        None => {},
        Some(region) => {
            let declared = region_slice(recompiled, region);
            if !bytes_equal(&declared, &compilation_artifacts.settings_digest) {
                return Err(ArtifactError::MetadataDigestMismatch);
            }
        },
    }
    let subs = opt_region_vec(&creation_artifacts.constructor_arguments);
    proof {
        assert forall|k: int| 0 <= k < subs@.len() implies region_in_bounds(
            #[trigger] subs@[k],
            on_chain@.len(),
        ) by {
            assert(subs@[k] == creation_artifacts.constructor_arguments->Some_0);
        }
    }
    Ok(
        normalize_and_compare(
            on_chain,
            recompiled,
            TransformationKind::ConstructorSubstitution,
            &subs,
            creation_artifacts.metadata_hash,
        ),
    )
}

/// Compares an on-chain blueprint initcode against recompiled creation
/// code: strips the declared blueprint preamble and trailing data section,
/// and compares the embedded creation code as creation code.
pub fn match_blueprint_creation(
    on_chain_initcode: &Vec<u8>,
    recompiled: &Vec<u8>,
    creation_artifacts: &CreationCodeArtifacts,
) -> (r: Result<Option<Match>, ArtifactError>)
    ensures
        result_model(r) == match_blueprint_model(
            on_chain_initcode@,
            recompiled@,
            creation_artifacts.constructor_arguments,
            creation_artifacts.metadata_hash,
        ),
{
    if on_chain_initcode.len() < 3 {
        return Ok(None);
    }
    if on_chain_initcode[0] != 0xFE || on_chain_initcode[1] != 0x71 {
        return Ok(None);
    }
    let flag: u8 = on_chain_initcode[2];
    let width: usize = (flag & 0x03) as usize;
    proof {
        assert(flag & 0x03 <= 0x03) by (bit_vector);
    }
    if on_chain_initcode.len() < 3 + width {
        return Ok(None);
    }
    let mut data_len: usize = 0;
    let mut j: usize = 0;
    while j < width
        invariant
            j <= width,
            width <= 3,
            3 + width <= on_chain_initcode@.len(),
            data_len == be_value(on_chain_initcode@.subrange(3, 3 + j)),
            j == 0 ==> data_len == 0,
            j == 1 ==> data_len <= 0xFF,
            j == 2 ==> data_len <= 0xFFFF,
            j == 3 ==> data_len <= 0xFFFFFF,
        decreases width - j,
    {
        let byte = on_chain_initcode[3 + j];
        data_len = data_len * 256 + byte as usize;
        proof {
            let taken = on_chain_initcode@.subrange(3, 3 + j + 1);
            assert(taken.drop_last() =~= on_chain_initcode@.subrange(3, 3 + j));
            assert(taken.last() == on_chain_initcode@[3 + j]);
        }
        j = j + 1;
    }
    let rest = on_chain_initcode.len() - 3 - width;
    if rest < data_len {
        return Ok(None);
    }
    let body_region = Region { offset: 3 + width, length: rest - data_len };
    let embedded = region_slice(on_chain_initcode, body_region);
    proof {
        assert(embedded@ =~= blueprint_body(on_chain_initcode@)->Some_0);
    }
    let subs = opt_region_vec(&creation_artifacts.constructor_arguments);
    match_code(
        &embedded,
        recompiled,
        TransformationKind::ConstructorSubstitution,
        &subs,
        creation_artifacts.metadata_hash,
    )
}

/// Pointwise characterization of region substitution: an index inside some
/// region of `rs` reads the source byte, any other index reads the base byte.
pub proof fn lemma_substitute_regions_pointwise(base: Seq<u8>, source: Seq<u8>, rs: Seq<Region>)
    ensures
        substitute_regions(base, source, rs).len() == base.len(),
        forall|i: int|
            0 <= i < base.len() ==> #[trigger] substitute_regions(base, source, rs)[i]
                == if in_some_region(rs, i) {
                source[i]
            } else {
                base[i]
            },
    decreases rs.len(),
{
    if rs.len() == 0 {
        assert forall|i: int| 0 <= i < base.len() implies !in_some_region(rs, i) by {
            if in_some_region(rs, i) {
                let k = choose|k: int| 0 <= k < rs.len() && in_region(rs[k], i);
            }
        }
    } else {
        let shorter = rs.drop_last();
        let last = rs.last();
        lemma_substitute_regions_pointwise(base, source, shorter);
        let prev = substitute_regions(base, source, shorter);
        assert forall|i: int|
            0 <= i < base.len() implies #[trigger] substitute_regions(base, source, rs)[i]
            == if in_some_region(rs, i) {
            source[i]
        } else {
            base[i]
        } by {
            assert(substitute_regions(base, source, rs)[i] == if in_region(last, i) {
                source[i]
            } else {
                prev[i]
            });
            if in_region(last, i) {
                assert(0 <= rs.len() - 1 < rs.len() && in_region(rs[rs.len() - 1], i));
                assert(in_some_region(rs, i));
            } else {
                if in_some_region(shorter, i) {
                    let k = choose|k: int| 0 <= k < shorter.len() && in_region(shorter[k], i);
                    assert(rs[k] == shorter[k]);
                    assert(in_some_region(rs, i));
                } else {
                    if in_some_region(rs, i) {
                        let k = choose|k: int| 0 <= k < rs.len() && in_region(rs[k], i);
                        if k < rs.len() - 1 {
                            assert(shorter[k] == rs[k]);
                            assert(in_some_region(shorter, i));
                        }
                        assert(false);
                    }
                }
            }
        }
    }
}

/// The recorded substitutions are in declaration order: one per region, each
/// carrying the on-chain bytes of its region.
pub proof fn lemma_substitution_transformations_index(
    kind: TransformationKind,
    on_chain: Seq<u8>,
    rs: Seq<Region>,
)
    ensures
        substitution_transformations(kind, on_chain, rs).len() == rs.len(),
        forall|k: int|
            0 <= k < rs.len() ==> #[trigger] substitution_transformations(kind, on_chain, rs)[k]
                == substitution_transformation(kind, on_chain, rs[k]),
    decreases rs.len(),
{
    if rs.len() > 0 {
        let shorter = rs.drop_last();
        lemma_substitution_transformations_index(kind, on_chain, shorter);
        assert forall|k: int|
            0 <= k < rs.len() implies #[trigger] substitution_transformations(kind, on_chain, rs)[k]
            == substitution_transformation(kind, on_chain, rs[k]) by {
            if k < rs.len() - 1 {
                assert(shorter[k] == rs[k]);
            }
        }
    }
}

/// Equal non-empty byte sequences with no declared regions match fully, on
/// every comparison path, and a full match records no transformations.
pub proof fn lemma_equal_code_full_match(code: Seq<u8>, kind: TransformationKind, digest: Seq<u8>)
    requires
        code.len() > 0,
    ensures
        match_code_model(code, code, kind, Seq::empty(), None) == Ok::<
            Option<MatchModel>,
            ArtifactError,
        >(Some(MatchModel::Full)),
        match_creation_model(code, code, None, None, digest) == Ok::<
            Option<MatchModel>,
            ArtifactError,
        >(Some(MatchModel::Full)),
        match_transformations(MatchModel::Full) == Seq::<TransformationModel>::empty(),
{
}

/// Sequences of equal length that differ, but only inside the declared
/// metadata-hash region, are a partial match recording exactly one masking
/// transformation, for that region.
pub proof fn lemma_metadata_difference_partial(
    on_chain: Seq<u8>,
    recompiled: Seq<u8>,
    kind: TransformationKind,
    metadata: Region,
)
    requires
        on_chain.len() == recompiled.len(),
        region_in_bounds(metadata, on_chain.len()),
        on_chain != recompiled,
        forall|i: int|
            0 <= i < on_chain.len() && !in_region(metadata, i) ==> on_chain[i] == recompiled[i],
    ensures
        match_code_model(on_chain, recompiled, kind, Seq::empty(), Some(metadata)) == Ok::<
            Option<MatchModel>,
            ArtifactError,
        >(
            Some(
                MatchModel::Partial {
                    transformations: seq![
                        TransformationModel {
                            kind: TransformationKind::MetadataMask,
                            region: metadata,
                            value: region_bytes(on_chain, metadata),
                        },
                    ],
                },
            ),
        ),
{
    let subs = Seq::<Region>::empty();
    assert(regions_in_bounds(subs, on_chain.len()));
    assert(substitute_regions(recompiled, on_chain, subs) == recompiled);
    assert(mask_region(recompiled, metadata) =~= mask_region(on_chain, metadata));
    assert(normalized_recompiled(on_chain, recompiled, subs, Some(metadata)) == normalized_on_chain(
        on_chain,
        Some(metadata),
    ));
    assert(normalization_transformations(kind, on_chain, subs, Some(metadata))
        =~= metadata_transformations(on_chain, Some(metadata)));
}

/// Sequences of equal length that differ, but only inside the declared
/// substitution slots, are a partial match whose recorded substitution
/// values are exactly the on-chain bytes at those offsets.
pub proof fn lemma_slot_difference_partial(
    on_chain: Seq<u8>,
    recompiled: Seq<u8>,
    kind: TransformationKind,
    slots: Seq<Region>,
)
    requires
        on_chain.len() == recompiled.len(),
        regions_in_bounds(slots, on_chain.len()),
        on_chain != recompiled,
        forall|i: int|
            0 <= i < on_chain.len() && !in_some_region(slots, i) ==> on_chain[i] == recompiled[i],
    ensures
        match_code_model(on_chain, recompiled, kind, slots, None) == Ok::<
            Option<MatchModel>,
            ArtifactError,
        >(
            Some(
                MatchModel::Partial {
                    transformations: substitution_transformations(kind, on_chain, slots),
                },
            ),
        ),
        substitution_transformations(kind, on_chain, slots).len() == slots.len(),
        forall|k: int|
            0 <= k < slots.len() ==> #[trigger] substitution_transformations(
                kind,
                on_chain,
                slots,
            )[k].value == region_bytes(on_chain, slots[k]),
{
    lemma_substitute_regions_pointwise(recompiled, on_chain, slots);
    assert(substitute_regions(recompiled, on_chain, slots) =~= on_chain);
    assert(normalized_recompiled(on_chain, recompiled, slots, None) == normalized_on_chain(
        on_chain,
        None,
    ));
    assert(normalization_transformations(kind, on_chain, slots, None)
        =~= substitution_transformations(kind, on_chain, slots));
    lemma_substitution_transformations_index(kind, on_chain, slots);
}

/// Sequences of different lengths never match, whatever the artifacts
/// declare.
pub proof fn lemma_length_mismatch_no_match(
    on_chain: Seq<u8>,
    recompiled: Seq<u8>,
    kind: TransformationKind,
    subs: Seq<Region>,
    constructor_arguments: Option<Region>,
    metadata: Option<Region>,
    digest: Seq<u8>,
)
    requires
        on_chain.len() != recompiled.len(),
    ensures
        match_code_model(on_chain, recompiled, kind, subs, metadata) == Ok::<
            Option<MatchModel>,
            ArtifactError,
        >(None),
        match_creation_model(on_chain, recompiled, constructor_arguments, metadata, digest) == Ok::<
            Option<MatchModel>,
            ArtifactError,
        >(None),
{
}

/// Sequences of equal length that differ at an index outside every declared
/// tolerance region never match.
pub proof fn lemma_difference_outside_regions_no_match(
    on_chain: Seq<u8>,
    recompiled: Seq<u8>,
    kind: TransformationKind,
    subs: Seq<Region>,
    metadata: Option<Region>,
    witness: int,
)
    requires
        on_chain.len() == recompiled.len(),
        regions_in_bounds(subs, on_chain.len()),
        opt_region_in_bounds(metadata, on_chain.len()),
        0 <= witness < on_chain.len(),
        !in_some_region(subs, witness),
        !in_opt_region(metadata, witness),
        on_chain[witness] != recompiled[witness],
    ensures
        match_code_model(on_chain, recompiled, kind, subs, metadata) == Ok::<
            Option<MatchModel>,
            ArtifactError,
        >(None),
{
    assert(on_chain != recompiled);
    lemma_substitute_regions_pointwise(recompiled, on_chain, subs);
    let norm_rec = normalized_recompiled(on_chain, recompiled, subs, metadata);
    let norm_onc = normalized_on_chain(on_chain, metadata);
    assert(substitute_regions(recompiled, on_chain, subs)[witness] == recompiled[witness]);
    assert(norm_rec[witness] == recompiled[witness]);
    assert(norm_onc[witness] == on_chain[witness]);
    assert(norm_rec != norm_onc);
}

impl Transformation {
    /// Copies the recorded normalization.
    pub fn duplicate(&self) -> (r: Transformation)
        ensures
            r@ == self@,
    {
        Transformation { kind: self.kind, region: self.region, value: copy_bytes(&self.value) }
    }
}

impl Match {
    /// Copies the match together with its recorded normalizations.
    pub fn duplicate(&self) -> (r: Match)
        ensures
            r@ == self@,
    {
        match self {
            Match::Full => Match::Full,
            Match::Partial { transformations } => {
                let mut copied: Vec<Transformation> = Vec::new();
                let mut i: usize = 0;
                while i < transformations.len()
                    invariant
                        i <= transformations@.len(),
                        copied@.len() == i,
                        forall|j: int| 0 <= j < i ==> copied@[j]@ == transformations@[j]@,
                    decreases transformations@.len() - i,
                {
                    copied.push(transformations[i].duplicate());
                    i = i + 1;
                }
                proof {
                    assert(transformation_models(copied@) =~= transformation_models(
                        transformations@,
                    ));
                }
                Match::Partial { transformations: copied }
            },
        }
    }
}

/// Copies an optional match together with its recorded normalizations.
pub fn duplicate_opt_match(m: &Option<Match>) -> (r: Option<Match>)
    ensures
        opt_match_model(r) == opt_match_model(*m),
{
    match m {
        None => None,
        Some(matched) => Some(matched.duplicate()),
    }
}

/// An initcode framed exactly as a blueprint — the two-byte format marker,
/// a version byte whose low two bits give the width of the length header, a
/// big-endian header carrying the length of the trailing data section, the
/// creation code, and that data section — strips back to precisely the
/// embedded creation code.
pub proof fn lemma_blueprint_frame(
    version: u8,
    length_bytes: Seq<u8>,
    creation: Seq<u8>,
    data: Seq<u8>,
)
    requires
        length_bytes.len() == version & 0x03,
        be_value(length_bytes) == data.len(),
    ensures
        blueprint_body(seq![0xFE, 0x71, version] + length_bytes + creation + data) == Some(
            creation,
        ),
{
    let initcode = seq![0xFE, 0x71, version] + length_bytes + creation + data;
    assert(version & 0x03 <= 3) by (bit_vector);
    let width = (version & 0x03) as int;
    assert(initcode.len() == 3 + width + creation.len() + data.len());
    assert(initcode[0] == 0xFE);
    assert(initcode[1] == 0x71);
    assert(initcode[2] == version);
    assert(initcode.subrange(3, 3 + width) =~= length_bytes);
    assert(initcode.subrange(3 + width, initcode.len() - data.len()) =~= creation);
}

/// The creation-code analogue of the masking law: when the recompiled
/// metadata-hash region is consistent with the recorded digest, sequences
/// of equal length differing only inside that region are a partial match
/// recording exactly the one masking transformation.
pub proof fn lemma_creation_metadata_difference_partial(
    on_chain: Seq<u8>,
    recompiled: Seq<u8>,
    metadata: Region,
    digest: Seq<u8>,
)
    requires
        on_chain.len() == recompiled.len(),
        region_in_bounds(metadata, on_chain.len()),
        creation_metadata_consistent(recompiled, Some(metadata), digest),
        on_chain != recompiled,
        forall|i: int|
            0 <= i < on_chain.len() && !in_region(metadata, i) ==> on_chain[i] == recompiled[i],
    ensures
        match_creation_model(on_chain, recompiled, None, Some(metadata), digest) == Ok::<
            Option<MatchModel>,
            ArtifactError,
        >(
            Some(
                MatchModel::Partial {
                    transformations: seq![
                        TransformationModel {
                            kind: TransformationKind::MetadataMask,
                            region: metadata,
                            value: region_bytes(on_chain, metadata),
                        },
                    ],
                },
            ),
        ),
{
    lemma_metadata_difference_partial(
        on_chain,
        recompiled,
        TransformationKind::ConstructorSubstitution,
        metadata,
    );
    assert(opt_region_seq(None) =~= Seq::<Region>::empty());
}

/// The creation-code analogue of the outside-difference law: with in-bounds
/// regions and a consistent digest, sequences of equal length that differ at
/// an index outside both declared regions never match.
pub proof fn lemma_creation_difference_outside_regions_no_match(
    on_chain: Seq<u8>,
    recompiled: Seq<u8>,
    constructor_arguments: Option<Region>,
    metadata: Option<Region>,
    digest: Seq<u8>,
    witness: int,
)
    requires
        on_chain.len() == recompiled.len(),
        opt_region_in_bounds(constructor_arguments, on_chain.len()),
        opt_region_in_bounds(metadata, on_chain.len()),
        creation_metadata_consistent(recompiled, metadata, digest),
        0 <= witness < on_chain.len(),
        !in_opt_region(constructor_arguments, witness),
        !in_opt_region(metadata, witness),
        on_chain[witness] != recompiled[witness],
    ensures
        match_creation_model(on_chain, recompiled, constructor_arguments, metadata, digest) == Ok::<
            Option<MatchModel>,
            ArtifactError,
        >(None),
{
    let subs = opt_region_seq(constructor_arguments);
    assert forall|k: int| 0 <= k < subs.len() implies region_in_bounds(
        #[trigger] subs[k],
        on_chain.len(),
    ) by {
        assert(subs[k] == constructor_arguments->Some_0);
    }
    assert(!in_some_region(subs, witness)) by {
        if in_some_region(subs, witness) {
            let k = choose|k: int| 0 <= k < subs.len() && in_region(subs[k], witness);
            assert(subs[k] == constructor_arguments->Some_0);
        }
    }
    lemma_difference_outside_regions_no_match(
        on_chain,
        recompiled,
        TransformationKind::ConstructorSubstitution,
        subs,
        metadata,
        witness,
    );
}

} // verus!
