//! Per-target verification: runs the code matcher against the runtime and
//! creation code of one on-chain target and folds the two outcomes into a
//! single verification result.

use vstd::prelude::*;

use crate::artifacts::{CompilationArtifacts, CreationCodeArtifacts, Region, RuntimeCodeArtifacts};
use crate::matcher::{
    copy_bytes, duplicate_opt_match, match_blueprint_creation, match_blueprint_model,
    match_creation, match_creation_model, match_runtime, match_runtime_model, opt_match_model,
    result_model, ArtifactError, Match, MatchModel,
};

verus! {

/// Rejected construction of `OnChainCode`: neither runtime nor creation
/// code was supplied.
#[derive(Clone, Copy, Debug, PartialEq, Eq, Structural)]
pub struct ValidationError;

/// The bytecode observed on-chain for one contract: an optional runtime
/// byte sequence and an optional creation byte sequence, of which at least
/// one is always present. A value with neither is not representable:
/// construction rejects it with a validation error.
#[derive(Debug)]
pub struct OnChainCode {
    runtime: Option<Vec<u8>>,
    creation: Option<Vec<u8>>,
}

/// The mathematical value of an optional byte vector.
pub open spec fn opt_bytes_model(v: Option<Vec<u8>>) -> Option<Seq<u8>> {
    match v {
        None => None,
        Some(bytes) => Some(bytes@),
    }
}

impl OnChainCode {
    #[verifier::type_invariant]
    spec fn well_formed(self) -> bool {
        self.runtime is Some || self.creation is Some
    }

    /// The runtime byte sequence, if one was observed.
    pub closed spec fn runtime_model(self) -> Option<Seq<u8>> {
        opt_bytes_model(self.runtime)
    }

    /// The creation byte sequence, if one was observed.
    pub closed spec fn creation_model(self) -> Option<Seq<u8>> {
        opt_bytes_model(self.creation)
    }

    /// Builds on-chain code from the observed byte sequences; fails with a
    /// validation error when neither is present.
    pub fn new(runtime: Option<Vec<u8>>, creation: Option<Vec<u8>>) -> (r: Result<
        OnChainCode,
        ValidationError,
    >)
        ensures
            r is Ok <==> (runtime is Some || creation is Some),
            r is Ok ==> r->Ok_0.runtime_model() == opt_bytes_model(runtime)
                && r->Ok_0.creation_model() == opt_bytes_model(creation),
    {
        if runtime.is_none() && creation.is_none() {
            Err(ValidationError)
        } else {
            Ok(OnChainCode { runtime, creation })
        }
    }

    /// The observed runtime code, if any.
    pub fn runtime(&self) -> (r: Option<&Vec<u8>>)
        ensures
            match r {
                None => self.runtime_model() is None,
                Some(v) => self.runtime_model() == Some(v@),
            },
    {
        match &self.runtime {
            None => None,
            Some(v) => Some(v),
        }
    }

    /// The observed creation code, if any.
    pub fn creation(&self) -> (r: Option<&Vec<u8>>)
        ensures
            match r {
                None => self.creation_model() is None,
                Some(v) => self.creation_model() == Some(v@),
            },
    {
        match &self.creation {
            None => None,
            Some(v) => Some(v),
        }
    }

    /// Copies the on-chain code.
    pub fn duplicate(&self) -> (r: OnChainCode)
        ensures
            r.runtime_model() == self.runtime_model(),
            r.creation_model() == self.creation_model(),
    {
        proof {
            use_type_invariant(self);
        }
        let runtime = match &self.runtime {
            None => None,
            Some(v) => Some(copy_bytes(v)),
        };
        let creation = match &self.creation {
            None => None,
            Some(v) => Some(copy_bytes(v)),
        };
        OnChainCode { runtime, creation }
    }
}

/// The bytecode produced by one run of the external compiler for one
/// artifact, shared read-only by every target of a batch.
#[derive(Clone, Debug, PartialOrd, PartialEq)]
pub struct RecompiledCode {
    pub runtime: Vec<u8>,
    pub creation: Vec<u8>,
}

impl RecompiledCode {
    /// Copies the recompiled code.
    pub fn duplicate(&self) -> (r: RecompiledCode)
        ensures
            r.runtime@ == self.runtime@,
            r.creation@ == self.creation@,
    {
        RecompiledCode { runtime: copy_bytes(&self.runtime), creation: copy_bytes(&self.creation) }
    }
}

/// The outcome of verifying one on-chain target against one recompiled
/// artifact: exactly one of the four shapes holds.
#[derive(Clone, Debug, PartialEq)]
pub enum VerificationResult {
    Failure,
    RuntimeMatch { runtime_match: Match },
    CreationMatch { creation_match: Match },
    CompleteMatch { runtime_match: Match, creation_match: Match },
}

/// The mathematical value of a `VerificationResult`.
pub ghost enum VerificationResultModel {
    Failure,
    RuntimeMatch { runtime_match: MatchModel },
    CreationMatch { creation_match: MatchModel },
    CompleteMatch { runtime_match: MatchModel, creation_match: MatchModel },
}

impl View for VerificationResult {
    type V = VerificationResultModel;

    open spec fn view(&self) -> VerificationResultModel {
        match self {
            VerificationResult::Failure => VerificationResultModel::Failure,
            VerificationResult::RuntimeMatch { runtime_match } => {
                VerificationResultModel::RuntimeMatch { runtime_match: runtime_match@ }
            },
            VerificationResult::CreationMatch { creation_match } => {
                VerificationResultModel::CreationMatch { creation_match: creation_match@ }
            },
            VerificationResult::CompleteMatch { runtime_match, creation_match } => {
                VerificationResultModel::CompleteMatch {
                    runtime_match: runtime_match@,
                    creation_match: creation_match@,
                }
            },
        }
    }
}

/// The exhaustive four-way fold of the pair of optional code matches into a
/// verification result; no fifth shape is reachable.
pub open spec fn fold_matches(
    runtime_match: Option<Match>,
    creation_match: Option<Match>,
) -> VerificationResult {
    match (runtime_match, creation_match) {
        (None, None) => VerificationResult::Failure,
        (Some(runtime_match), None) => VerificationResult::RuntimeMatch { runtime_match },
        (None, Some(creation_match)) => VerificationResult::CreationMatch { creation_match },
        (Some(runtime_match), Some(creation_match)) => VerificationResult::CompleteMatch {
            runtime_match,
            creation_match,
        },
    }
}

/// The four-way fold over mathematical match values.
pub open spec fn fold_matches_model(
    runtime_match: Option<MatchModel>,
    creation_match: Option<MatchModel>,
) -> VerificationResultModel {
    match (runtime_match, creation_match) {
        (None, None) => VerificationResultModel::Failure,
        (Some(runtime_match), None) => VerificationResultModel::RuntimeMatch { runtime_match },
        (None, Some(creation_match)) => VerificationResultModel::CreationMatch { creation_match },
        (Some(runtime_match), Some(creation_match)) => VerificationResultModel::CompleteMatch {
            runtime_match,
            creation_match,
        },
    }
}

/// Folds the optional runtime match and optional creation match into the
/// single verification outcome. This is the one fold, shared by the
/// single-target and batch paths.
pub fn matches_to_verification_result(
    runtime_match: Option<Match>,
    creation_match: Option<Match>,
) -> (r: VerificationResult)
    ensures
        r == fold_matches(runtime_match, creation_match),
        r@ == fold_matches_model(opt_match_model(runtime_match), opt_match_model(creation_match)),
{
    match (runtime_match, creation_match) {
        (None, None) => VerificationResult::Failure,
        (Some(runtime_match), None) => VerificationResult::RuntimeMatch { runtime_match },
        (None, Some(creation_match)) => VerificationResult::CreationMatch { creation_match },
        (Some(runtime_match), Some(creation_match)) => VerificationResult::CompleteMatch {
            runtime_match,
            creation_match,
        },
    }
}

/// What remains of a matching outcome once faults are downgraded: a
/// malformed artifact counts as "no match".
pub open spec fn processed(r: Result<Option<Match>, ArtifactError>) -> Option<Match> {
    match r {
        Ok(m) => m,
        Err(_) => None,
    }
}

/// The downgrade over mathematical match values.
pub open spec fn processed_model(r: Result<Option<MatchModel>, ArtifactError>) -> Option<
    MatchModel,
> {
    match r {
        Ok(m) => m,
        Err(_) => None,
    }
}

/// Downgrades a matching fault (a malformed artifact) to "no match":
/// matching fails open to "no match", never to a match.
pub fn process_verify_code_result(verify_code_result: Result<Option<Match>, ArtifactError>) -> (r:
    Option<Match>)
    ensures
        r == processed(verify_code_result),
        opt_match_model(r) == processed_model(result_model(verify_code_result)),
{
    match verify_code_result {
        Ok(m) => m,
        Err(_) => None,
    }
}

/// What verifying one standard (non-blueprint) target returns, as a
/// function of the observed code, the recompiled code and the declared
/// artifacts: each present code kind is matched independently and the two
/// outcomes are folded.
pub open spec fn verify_contract_model(
    on_chain_runtime: Option<Seq<u8>>,
    on_chain_creation: Option<Seq<u8>>,
    recompiled_runtime: Seq<u8>,
    recompiled_creation: Seq<u8>,
    immutable_references: Seq<Region>,
    runtime_metadata: Option<Region>,
    constructor_arguments: Option<Region>,
    creation_metadata: Option<Region>,
    digest: Seq<u8>,
) -> VerificationResultModel {
    let runtime_match = match on_chain_runtime {
        None => None,
        Some(code) => processed_model(
            match_runtime_model(code, recompiled_runtime, immutable_references, runtime_metadata),
        ),
    };
    let creation_match = match on_chain_creation {
        None => None,
        Some(code) => processed_model(
            match_creation_model(
                code,
                recompiled_creation,
                constructor_arguments,
                creation_metadata,
                digest,
            ),
        ),
    };
    fold_matches_model(runtime_match, creation_match)
}

/// Verifies one on-chain target against one recompiled artifact: matches
/// runtime code when present, creation code when present, and folds the two
/// outcomes into a single verification result.
pub fn verify_contract(
    on_chain_code: OnChainCode,
    recompiled_code: RecompiledCode,
    compilation_artifacts: &CompilationArtifacts,
    creation_code_artifacts: &CreationCodeArtifacts,
    runtime_code_artifacts: &RuntimeCodeArtifacts,
) -> (r: VerificationResult)
    ensures
        r@ == verify_contract_model(
            on_chain_code.runtime_model(),
            on_chain_code.creation_model(),
            recompiled_code.runtime@,
            recompiled_code.creation@,
            runtime_code_artifacts.immutable_references@,
            runtime_code_artifacts.metadata_hash,
            creation_code_artifacts.constructor_arguments,
            creation_code_artifacts.metadata_hash,
            compilation_artifacts.settings_digest@,
        ),
{
    let runtime_match: Option<Match> = match on_chain_code.runtime() {
        None => None,
        Some(on_chain_runtime_code) => {
            let verify_code_result = match_runtime(
                on_chain_runtime_code,
                &recompiled_code.runtime,
                runtime_code_artifacts,
            );
            process_verify_code_result(verify_code_result)
        },
    };
    let creation_match: Option<Match> = match on_chain_code.creation() {
        None => None,
        Some(on_chain_creation_code) => {
            let verify_code_result = match_creation(
                on_chain_creation_code,
                &recompiled_code.creation,
                creation_code_artifacts,
                compilation_artifacts,
            );
            process_verify_code_result(verify_code_result)
        },
    };
    matches_to_verification_result(runtime_match, creation_match)
}

/// What verifying one blueprint target returns: the single creation match
/// is mirrored into both slots of the fold, so a blueprint that matches
/// folds to a complete match and one that does not folds to a failure.
pub open spec fn verify_blueprint_model(
    on_chain_initcode: Seq<u8>,
    recompiled_creation: Seq<u8>,
    constructor_arguments: Option<Region>,
    metadata: Option<Region>,
) -> VerificationResultModel {
    let m = processed_model(
        match_blueprint_model(
            on_chain_initcode,
            recompiled_creation,
            constructor_arguments,
            metadata,
        ),
    );
    fold_matches_model(m, m)
}

/// Verifies one blueprint target against recompiled creation code. A
/// blueprint has no runtime comparison of its own: the single creation
/// match is deliberately mirrored into both slots of the folded result, so
/// downstream consumers that expect paired results see identical content in
/// both.
pub fn verify_blueprint_contract(
    on_chain_initcode: Vec<u8>,
    recompiled_code: RecompiledCode,
    creation_code_artifacts: &CreationCodeArtifacts,
) -> (r: VerificationResult)
    ensures
        r@ == verify_blueprint_model(
            on_chain_initcode@,
            recompiled_code.creation@,
            creation_code_artifacts.constructor_arguments,
            creation_code_artifacts.metadata_hash,
        ),
{
    let verify_code_result = match_blueprint_creation(
        &on_chain_initcode,
        &recompiled_code.creation,
        creation_code_artifacts,
    );
    let match_ = process_verify_code_result(verify_code_result);
    let mirrored = duplicate_opt_match(&match_);
    matches_to_verification_result(mirrored, match_)
}

} // verus!
