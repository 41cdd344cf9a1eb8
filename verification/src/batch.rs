//! Batch coordination: one compiled artifact, many on-chain targets.
//!
//! The external compile step runs exactly once per batch — the coordinator
//! takes the outcome of that single compilation and applies the matcher to
//! every target, in input order. A target that does not match is recorded
//! as a failure at its position; it never aborts the batch. A failure of
//! the compile step itself aborts the whole batch with a single error.
//! Single-target verification is a batch of size one, validated to return
//! exactly one result.

use vstd::prelude::*;

use crate::artifacts::ArtifactSet;
use crate::matcher::copy_bytes;
use crate::verification::{
    verify_blueprint_contract, verify_blueprint_model, verify_contract, verify_contract_model,
    OnChainCode, RecompiledCode, VerificationResult, VerificationResultModel,
};

verus! {

/// One on-chain contract to verify: an identifier, the observed code, and
/// whether the contract is a blueprint (its creation code framed by a
/// blueprint preamble).
#[derive(Debug)]
pub struct OnChainContract {
    pub id: String,
    pub code: OnChainCode,
    pub is_blueprint: bool,
}

/// The output of the single external compile step for one artifact: the
/// recompiled code and the artifact set describing its tolerance regions.
#[derive(Debug)]
pub struct CompilationOutput {
    pub recompiled: RecompiledCode,
    pub artifacts: ArtifactSet,
}

/// The one error surfaced at the verification boundary, distinguishing a
/// failed compile step (fatal for the whole batch) from a violated internal
/// invariant.
#[derive(Debug, PartialEq, Eq)]
pub enum Error {
    /// The external compile step failed with the carried message; no
    /// targets were verified.
    CompilationFailed(String),
    /// An internal invariant was violated: a batch of size one did not
    /// return exactly one result.
    Internal,
}

/// A request to verify a single on-chain contract against one compiler
/// version and input payload.
#[derive(Debug)]
pub struct VerificationRequest {
    pub contract: OnChainContract,
    pub compiler_version: String,
    pub content: String,
}

/// A request to verify many on-chain contracts sharing one compiler version
/// and input payload.
#[derive(Debug)]
pub struct BatchVerificationRequest {
    pub contracts: Vec<OnChainContract>,
    pub compiler_version: String,
    pub content: String,
}

/// What verifying one target returns: a blueprint is matched by its
/// creation code alone (a blueprint with no creation code on-chain is a
/// failure); any other target is matched per present code kind and folded.
pub open spec fn verify_target_model(
    contract: OnChainContract,
    recompiled: RecompiledCode,
    artifacts: ArtifactSet,
) -> VerificationResultModel {
    if contract.is_blueprint {
        match contract.code.creation_model() {
            None => VerificationResultModel::Failure,
            Some(initcode) => verify_blueprint_model(
                initcode,
                recompiled.creation@,
                artifacts.creation_code.constructor_arguments,
                artifacts.creation_code.metadata_hash,
            ),
        }
    } else {
        verify_contract_model(
            contract.code.runtime_model(),
            contract.code.creation_model(),
            recompiled.runtime@,
            recompiled.creation@,
            artifacts.runtime_code.immutable_references@,
            artifacts.runtime_code.metadata_hash,
            artifacts.creation_code.constructor_arguments,
            artifacts.creation_code.metadata_hash,
            artifacts.compilation.settings_digest@,
        )
    }
}

/// Verifies one target against the shared compilation output.
pub fn verify_target(
    contract: &OnChainContract,
    recompiled: &RecompiledCode,
    artifacts: &ArtifactSet,
) -> (r: VerificationResult)
    ensures
        r@ == verify_target_model(*contract, *recompiled, *artifacts),
{
    if contract.is_blueprint {
        match contract.code.creation() {
            None => VerificationResult::Failure,
            Some(initcode) => verify_blueprint_contract(
                copy_bytes(initcode),
                recompiled.duplicate(),
                &artifacts.creation_code,
            ),
        }
    } else {
        verify_contract(
            contract.code.duplicate(),
            recompiled.duplicate(),
            &artifacts.compilation,
            &artifacts.creation_code,
            &artifacts.runtime_code,
        )
    }
}

/// Verifies every contract of the batch against the single compilation
/// outcome, in input order. A failed compile step aborts the whole batch;
/// otherwise the result list has exactly one entry per target, a
/// non-matching target appearing as a failure at its position.
pub fn batch_verify(
    request: BatchVerificationRequest,
    compilation: Result<CompilationOutput, String>,
) -> (r: Result<Vec<VerificationResult>, Error>)
    ensures
        compilation is Err ==> r == Err::<Vec<VerificationResult>, Error>(
            Error::CompilationFailed(compilation->Err_0),
        ),
        compilation is Ok ==> r is Ok && r->Ok_0@.len() == request.contracts@.len() && forall|
            i: int,
        |
            0 <= i < request.contracts@.len() ==> (#[trigger] r->Ok_0@[i])@ == verify_target_model(
                request.contracts@[i],
                compilation->Ok_0.recompiled,
                compilation->Ok_0.artifacts,
            ),
{
    match compilation {
        Err(message) => Err(Error::CompilationFailed(message)),
        Ok(output) => {
            let mut results: Vec<VerificationResult> = Vec::new();
            let mut i: usize = 0;
            while i < request.contracts.len()
                invariant
                    i <= request.contracts@.len(),
                    results@.len() == i,
                    forall|j: int|
                        0 <= j < i ==> (#[trigger] results@[j])@ == verify_target_model(
                            request.contracts@[j],
                            output.recompiled,
                            output.artifacts,
                        ),
                decreases request.contracts@.len() - i,
            {
                let result = verify_target(&request.contracts[i], &output.recompiled, &output.artifacts);
                results.push(result);
                i = i + 1;
            }
            Ok(results)
        },
    }
}

/// Verifies a single contract, expressed as a batch of size one; the batch
/// is validated to return exactly one result, an unexpected count being
/// surfaced as an internal invariant violation rather than assumed away.
pub fn verify(
    request: VerificationRequest,
    compilation: Result<CompilationOutput, String>,
) -> (r: Result<VerificationResult, Error>)
    ensures
        compilation is Err ==> r == Err::<VerificationResult, Error>(
            Error::CompilationFailed(compilation->Err_0),
        ),
        compilation is Ok ==> r is Ok && r->Ok_0@ == verify_target_model(
            request.contract,
            compilation->Ok_0.recompiled,
            compilation->Ok_0.artifacts,
        ),
{
    let VerificationRequest { contract, compiler_version, content } = request;
    let to_verify: Vec<OnChainContract> = vec![contract];
    let batch_request = BatchVerificationRequest {
        contracts: to_verify,
        compiler_version,
        content,
    };
    match batch_verify(batch_request, compilation) {
        Err(e) => Err(e),
        Ok(mut results) => {
            if results.len() != 1 {
                Err(Error::Internal)
            } else {
                match results.pop() {
                    Some(result) => Ok(result),
                    None => Err(Error::Internal),
                }
            }
        },
    }
}

} // verus!
