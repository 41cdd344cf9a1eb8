use smart_contract_verifier::artifacts::{
    ArtifactSet, CompilationArtifacts, CreationCodeArtifacts, Region, RuntimeCodeArtifacts,
};
use smart_contract_verifier::batch::{
    batch_verify, verify, BatchVerificationRequest, CompilationOutput, Error, OnChainContract,
    VerificationRequest,
};
use smart_contract_verifier::matcher::{Match, Transformation, TransformationKind};
use smart_contract_verifier::verification::{
    matches_to_verification_result, verify_blueprint_contract, verify_contract, OnChainCode,
    RecompiledCode, VerificationResult,
};

fn empty_artifact_set() -> ArtifactSet {
    ArtifactSet {
        compilation: CompilationArtifacts { settings_digest: vec![] },
        creation_code: CreationCodeArtifacts { constructor_arguments: None, metadata_hash: None },
        runtime_code: RuntimeCodeArtifacts { immutable_references: vec![], metadata_hash: None },
    }
}

#[test]
fn on_chain_code_with_neither_part_is_rejected() {
    let result = OnChainCode::new(None, None);
    assert!(result.is_err());
}

#[test]
fn on_chain_code_with_one_part_is_accepted() {
    assert!(OnChainCode::new(Some(vec![1]), None).is_ok());
    assert!(OnChainCode::new(None, Some(vec![2])).is_ok());
    let code = OnChainCode::new(Some(vec![1]), Some(vec![2])).unwrap();
    assert_eq!(code.runtime(), Some(&vec![1]));
    assert_eq!(code.creation(), Some(&vec![2]));
}

#[test]
fn fold_of_both_matches_is_complete_match() {
    let folded = matches_to_verification_result(Some(Match::Full), Some(Match::Full));
    assert_eq!(
        folded,
        VerificationResult::CompleteMatch {
            runtime_match: Match::Full,
            creation_match: Match::Full,
        }
    );
}

#[test]
fn fold_of_runtime_match_alone_is_runtime_match() {
    let folded = matches_to_verification_result(Some(Match::Full), None);
    assert_eq!(folded, VerificationResult::RuntimeMatch { runtime_match: Match::Full });
}

#[test]
fn fold_of_creation_match_alone_is_creation_match() {
    let folded = matches_to_verification_result(None, Some(Match::Full));
    assert_eq!(folded, VerificationResult::CreationMatch { creation_match: Match::Full });
}

#[test]
fn fold_of_no_matches_is_failure() {
    let folded = matches_to_verification_result(None, None);
    assert_eq!(folded, VerificationResult::Failure);
}

#[test]
fn verify_contract_with_both_codes_equal_is_complete_match() {
    let artifacts = empty_artifact_set();
    let on_chain = OnChainCode::new(Some(vec![1, 2]), Some(vec![3, 4])).unwrap();
    let recompiled = RecompiledCode { runtime: vec![1, 2], creation: vec![3, 4] };
    let result = verify_contract(
        on_chain,
        recompiled,
        &artifacts.compilation,
        &artifacts.creation_code,
        &artifacts.runtime_code,
    );
    assert_eq!(
        result,
        VerificationResult::CompleteMatch {
            runtime_match: Match::Full,
            creation_match: Match::Full,
        }
    );
}

#[test]
fn verify_contract_with_runtime_only_is_runtime_match() {
    let artifacts = empty_artifact_set();
    let on_chain = OnChainCode::new(Some(vec![1, 2]), None).unwrap();
    let recompiled = RecompiledCode { runtime: vec![1, 2], creation: vec![3, 4] };
    let result = verify_contract(
        on_chain,
        recompiled,
        &artifacts.compilation,
        &artifacts.creation_code,
        &artifacts.runtime_code,
    );
    assert_eq!(result, VerificationResult::RuntimeMatch { runtime_match: Match::Full });
}

#[test]
fn verify_contract_with_creation_only_is_creation_match() {
    let artifacts = empty_artifact_set();
    let on_chain = OnChainCode::new(None, Some(vec![3, 4])).unwrap();
    let recompiled = RecompiledCode { runtime: vec![1, 2], creation: vec![3, 4] };
    let result = verify_contract(
        on_chain,
        recompiled,
        &artifacts.compilation,
        &artifacts.creation_code,
        &artifacts.runtime_code,
    );
    assert_eq!(result, VerificationResult::CreationMatch { creation_match: Match::Full });
}

#[test]
fn verify_contract_with_no_matching_code_is_failure() {
    let artifacts = empty_artifact_set();
    let on_chain = OnChainCode::new(Some(vec![9, 9]), Some(vec![8, 8])).unwrap();
    let recompiled = RecompiledCode { runtime: vec![1, 2], creation: vec![3, 4] };
    let result = verify_contract(
        on_chain,
        recompiled,
        &artifacts.compilation,
        &artifacts.creation_code,
        &artifacts.runtime_code,
    );
    assert_eq!(result, VerificationResult::Failure);
}

#[test]
fn malformed_artifact_downgrades_to_failure_not_match() {
    // an immutable-reference slot past the end of the code is an internal
    // fault: the runtime comparison is downgraded to "no match"
    let mut artifacts = empty_artifact_set();
    artifacts.runtime_code.immutable_references = vec![Region { offset: 1, length: 5 }];
    let on_chain = OnChainCode::new(Some(vec![9, 9]), None).unwrap();
    let recompiled = RecompiledCode { runtime: vec![1, 2], creation: vec![] };
    let result = verify_contract(
        on_chain,
        recompiled,
        &artifacts.compilation,
        &artifacts.creation_code,
        &artifacts.runtime_code,
    );
    assert_eq!(result, VerificationResult::Failure);
}

#[test]
fn blueprint_match_is_mirrored_into_both_slots() {
    // initcode: preamble (one length byte, two data bytes), embedded
    // creation code differing from the recompiled code only inside the
    // metadata-hash region, trailing data
    let initcode: Vec<u8> = vec![0xFE, 0x71, 0x01, 0x02, 0x60, 0x80, 0x11, 0x22, 0xD1, 0xD2];
    let recompiled = RecompiledCode { runtime: vec![], creation: vec![0x60, 0x80, 0x99, 0x88] };
    let region = Region { offset: 2, length: 2 };
    let creation_artifacts =
        CreationCodeArtifacts { constructor_arguments: None, metadata_hash: Some(region) };
    let result = verify_blueprint_contract(initcode, recompiled, &creation_artifacts);
    let expected_match = Match::Partial {
        transformations: vec![Transformation {
            kind: TransformationKind::MetadataMask,
            region,
            value: vec![0x11, 0x22],
        }],
    };
    assert_eq!(
        result,
        VerificationResult::CompleteMatch {
            runtime_match: expected_match.clone(),
            creation_match: expected_match,
        }
    );
}

#[test]
fn blueprint_without_frame_is_failure() {
    let initcode: Vec<u8> = vec![0x60, 0x80];
    let recompiled = RecompiledCode { runtime: vec![], creation: vec![0x60, 0x80] };
    let creation_artifacts =
        CreationCodeArtifacts { constructor_arguments: None, metadata_hash: None };
    let result = verify_blueprint_contract(initcode, recompiled, &creation_artifacts);
    assert_eq!(result, VerificationResult::Failure);
}

#[test]
fn batch_of_three_shares_one_compilation_and_keeps_order() {
    let output = CompilationOutput {
        recompiled: RecompiledCode { runtime: vec![1, 2], creation: vec![3, 4] },
        artifacts: empty_artifact_set(),
    };
    let matching = OnChainContract {
        id: "first".to_string(),
        code: OnChainCode::new(Some(vec![1, 2]), Some(vec![3, 4])).unwrap(),
        is_blueprint: false,
    };
    let failing = OnChainContract {
        id: "second".to_string(),
        code: OnChainCode::new(Some(vec![9, 9]), None).unwrap(),
        is_blueprint: false,
    };
    let runtime_only = OnChainContract {
        id: "third".to_string(),
        code: OnChainCode::new(Some(vec![1, 2]), None).unwrap(),
        is_blueprint: false,
    };
    let request = BatchVerificationRequest {
        contracts: vec![matching, failing, runtime_only],
        compiler_version: "0.8.24".to_string(),
        content: "{}".to_string(),
    };
    let results = batch_verify(request, Ok(output)).unwrap();
    assert_eq!(results.len(), 3);
    assert_eq!(
        results[0],
        VerificationResult::CompleteMatch {
            runtime_match: Match::Full,
            creation_match: Match::Full,
        }
    );
    assert_eq!(results[1], VerificationResult::Failure);
    assert_eq!(results[2], VerificationResult::RuntimeMatch { runtime_match: Match::Full });
}

#[test]
fn compile_failure_aborts_whole_batch() {
    let contract = OnChainContract {
        id: "only".to_string(),
        code: OnChainCode::new(Some(vec![1]), None).unwrap(),
        is_blueprint: false,
    };
    let request = BatchVerificationRequest {
        contracts: vec![contract],
        compiler_version: "0.8.24".to_string(),
        content: "{}".to_string(),
    };
    let result = batch_verify(request, Err("bad compiler version".to_string()));
    assert_eq!(result, Err(Error::CompilationFailed("bad compiler version".to_string())));
}

#[test]
fn single_target_verify_returns_exactly_one_result() {
    let output = CompilationOutput {
        recompiled: RecompiledCode { runtime: vec![1, 2], creation: vec![3, 4] },
        artifacts: empty_artifact_set(),
    };
    let request = VerificationRequest {
        contract: OnChainContract {
            id: "only".to_string(),
            code: OnChainCode::new(Some(vec![1, 2]), None).unwrap(),
            is_blueprint: false,
        },
        compiler_version: "0.8.24".to_string(),
        content: "{}".to_string(),
    };
    let result = verify(request, Ok(output)).unwrap();
    assert_eq!(result, VerificationResult::RuntimeMatch { runtime_match: Match::Full });
}

#[test]
fn single_target_verify_propagates_compile_failure() {
    let request = VerificationRequest {
        contract: OnChainContract {
            id: "only".to_string(),
            code: OnChainCode::new(Some(vec![1, 2]), None).unwrap(),
            is_blueprint: false,
        },
        compiler_version: "nonsense".to_string(),
        content: "{}".to_string(),
    };
    let result = verify(request, Err("unknown version".to_string()));
    assert_eq!(result, Err(Error::CompilationFailed("unknown version".to_string())));
}

#[test]
fn batch_dispatches_blueprint_targets_to_blueprint_matching() {
    let recompiled = RecompiledCode { runtime: vec![], creation: vec![0x60, 0x80] };
    let output =
        CompilationOutput { recompiled, artifacts: empty_artifact_set() };
    let blueprint = OnChainContract {
        id: "bp".to_string(),
        code: OnChainCode::new(None, Some(vec![0xFE, 0x71, 0x00, 0x60, 0x80])).unwrap(),
        is_blueprint: true,
    };
    let request = BatchVerificationRequest {
        contracts: vec![blueprint],
        compiler_version: "0.4.0".to_string(),
        content: "{}".to_string(),
    };
    let results = batch_verify(request, Ok(output)).unwrap();
    assert_eq!(
        results[0],
        VerificationResult::CompleteMatch {
            runtime_match: Match::Full,
            creation_match: Match::Full,
        }
    );
}
