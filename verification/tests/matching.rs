use smart_contract_verifier::artifacts::{
    CompilationArtifacts, CreationCodeArtifacts, Region, RuntimeCodeArtifacts,
};
use smart_contract_verifier::matcher::{
    match_blueprint_creation, match_creation, match_runtime, ArtifactError, Match, Transformation,
    TransformationKind,
};

fn no_runtime_regions() -> RuntimeCodeArtifacts {
    RuntimeCodeArtifacts { immutable_references: vec![], metadata_hash: None }
}

fn no_creation_regions() -> CreationCodeArtifacts {
    CreationCodeArtifacts { constructor_arguments: None, metadata_hash: None }
}

#[test]
fn equal_bytes_no_regions_full_match() {
    let code: Vec<u8> = vec![1, 2, 3, 4, 5];
    let result = match_runtime(&code, &code.clone(), &no_runtime_regions());
    assert_eq!(result, Ok(Some(Match::Full)));
}

#[test]
fn equal_empty_bytes_full_match() {
    let code: Vec<u8> = vec![];
    let result = match_runtime(&code, &code.clone(), &no_runtime_regions());
    assert_eq!(result, Ok(Some(Match::Full)));
}

#[test]
fn equal_bytes_with_declared_regions_still_full_match() {
    let code: Vec<u8> = vec![1, 2, 3, 4];
    let artifacts = RuntimeCodeArtifacts {
        immutable_references: vec![Region { offset: 0, length: 2 }],
        metadata_hash: Some(Region { offset: 2, length: 2 }),
    };
    let result = match_runtime(&code, &code.clone(), &artifacts);
    assert_eq!(result, Ok(Some(Match::Full)));
}

#[test]
fn metadata_only_difference_partial_with_one_mask() {
    let on_chain: Vec<u8> = vec![1, 2, 3, 4];
    let recompiled: Vec<u8> = vec![1, 9, 9, 4];
    let region = Region { offset: 1, length: 2 };
    let artifacts =
        RuntimeCodeArtifacts { immutable_references: vec![], metadata_hash: Some(region) };
    let result = match_runtime(&on_chain, &recompiled, &artifacts);
    let expected = vec![Transformation {
        kind: TransformationKind::MetadataMask,
        region,
        value: vec![2, 3],
    }];
    assert_eq!(result, Ok(Some(Match::Partial { transformations: expected })));
}

#[test]
fn immutable_slot_differences_record_on_chain_values() {
    let on_chain: Vec<u8> = vec![0x11, 0x22, 3, 4, 0x33, 6];
    let recompiled: Vec<u8> = vec![0, 0, 3, 4, 0, 6];
    let first = Region { offset: 0, length: 2 };
    let second = Region { offset: 4, length: 1 };
    let artifacts =
        RuntimeCodeArtifacts { immutable_references: vec![first, second], metadata_hash: None };
    let result = match_runtime(&on_chain, &recompiled, &artifacts);
    let expected = vec![
        Transformation {
            kind: TransformationKind::ImmutableSubstitution,
            region: first,
            value: vec![0x11, 0x22],
        },
        Transformation {
            kind: TransformationKind::ImmutableSubstitution,
            region: second,
            value: vec![0x33],
        },
    ];
    assert_eq!(result, Ok(Some(Match::Partial { transformations: expected })));
}

#[test]
fn length_mismatch_never_matches() {
    let on_chain: Vec<u8> = vec![1, 2, 3];
    let recompiled: Vec<u8> = vec![1, 2, 3, 0];
    let artifacts = RuntimeCodeArtifacts {
        immutable_references: vec![Region { offset: 0, length: 3 }],
        metadata_hash: Some(Region { offset: 0, length: 3 }),
    };
    assert_eq!(match_runtime(&on_chain, &recompiled, &artifacts), Ok(None));
}

#[test]
fn difference_outside_declared_regions_never_matches() {
    let on_chain: Vec<u8> = vec![1, 2, 3, 4];
    let recompiled: Vec<u8> = vec![1, 9, 3, 7];
    let artifacts = RuntimeCodeArtifacts {
        immutable_references: vec![],
        metadata_hash: Some(Region { offset: 1, length: 1 }),
    };
    assert_eq!(match_runtime(&on_chain, &recompiled, &artifacts), Ok(None));
}

#[test]
fn out_of_bounds_region_is_artifact_error() {
    let on_chain: Vec<u8> = vec![1, 2, 3];
    let recompiled: Vec<u8> = vec![1, 2, 9];
    let artifacts = RuntimeCodeArtifacts {
        immutable_references: vec![Region { offset: 2, length: 2 }],
        metadata_hash: None,
    };
    let result = match_runtime(&on_chain, &recompiled, &artifacts);
    assert_eq!(result, Err(ArtifactError::RegionOutOfBounds));
}

#[test]
fn creation_constructor_arguments_substituted() {
    let on_chain: Vec<u8> = vec![1, 2, 0xAB, 0xCD];
    let recompiled: Vec<u8> = vec![1, 2, 0, 0];
    let region = Region { offset: 2, length: 2 };
    let creation =
        CreationCodeArtifacts { constructor_arguments: Some(region), metadata_hash: None };
    let compilation = CompilationArtifacts { settings_digest: vec![] };
    let result = match_creation(&on_chain, &recompiled, &creation, &compilation);
    let expected = vec![Transformation {
        kind: TransformationKind::ConstructorSubstitution,
        region,
        value: vec![0xAB, 0xCD],
    }];
    assert_eq!(result, Ok(Some(Match::Partial { transformations: expected })));
}

#[test]
fn creation_metadata_digest_mismatch_is_artifact_error() {
    let on_chain: Vec<u8> = vec![1, 2, 3, 4];
    let recompiled: Vec<u8> = vec![1, 2, 9, 9];
    let region = Region { offset: 2, length: 2 };
    let creation =
        CreationCodeArtifacts { constructor_arguments: None, metadata_hash: Some(region) };
    // the recompiled code carries [9, 9] in the region, not the recorded digest
    let compilation = CompilationArtifacts { settings_digest: vec![9, 8] };
    let result = match_creation(&on_chain, &recompiled, &creation, &compilation);
    assert_eq!(result, Err(ArtifactError::MetadataDigestMismatch));
}

#[test]
fn creation_metadata_masked_when_digest_consistent() {
    let on_chain: Vec<u8> = vec![1, 2, 3, 4];
    let recompiled: Vec<u8> = vec![1, 2, 9, 9];
    let region = Region { offset: 2, length: 2 };
    let creation =
        CreationCodeArtifacts { constructor_arguments: None, metadata_hash: Some(region) };
    let compilation = CompilationArtifacts { settings_digest: vec![9, 9] };
    let result = match_creation(&on_chain, &recompiled, &creation, &compilation);
    let expected = vec![Transformation {
        kind: TransformationKind::MetadataMask,
        region,
        value: vec![3, 4],
    }];
    assert_eq!(result, Ok(Some(Match::Partial { transformations: expected })));
}

#[test]
fn blueprint_preamble_and_trailing_data_stripped() {
    // preamble: magic 0xFE 0x71, version byte 0b000000_01 (one length byte),
    // data length 2; embedded creation code [0x60, 0x80, 0x11, 0x22]; data [0xD1, 0xD2]
    let initcode: Vec<u8> = vec![0xFE, 0x71, 0x01, 0x02, 0x60, 0x80, 0x11, 0x22, 0xD1, 0xD2];
    let recompiled: Vec<u8> = vec![0x60, 0x80, 0x11, 0x22];
    let result = match_blueprint_creation(&initcode, &recompiled, &no_creation_regions());
    assert_eq!(result, Ok(Some(Match::Full)));
}

#[test]
fn blueprint_wrong_magic_never_matches() {
    let initcode: Vec<u8> = vec![0xFE, 0x70, 0x00, 0x60, 0x80];
    let recompiled: Vec<u8> = vec![0x60, 0x80];
    let result = match_blueprint_creation(&initcode, &recompiled, &no_creation_regions());
    assert_eq!(result, Ok(None));
}

#[test]
fn blueprint_data_length_past_end_never_matches() {
    // header declares 0xFF trailing data bytes, far more than remain
    let initcode: Vec<u8> = vec![0xFE, 0x71, 0x01, 0xFF, 0x60, 0x80];
    let recompiled: Vec<u8> = vec![0x60, 0x80];
    let result = match_blueprint_creation(&initcode, &recompiled, &no_creation_regions());
    assert_eq!(result, Ok(None));
}

#[test]
fn blueprint_no_length_bytes_strips_bare_preamble() {
    // version byte 0b000000_00: no length bytes, no trailing data section
    let initcode: Vec<u8> = vec![0xFE, 0x71, 0x00, 0x60, 0x80];
    let recompiled: Vec<u8> = vec![0x60, 0x80];
    let result = match_blueprint_creation(&initcode, &recompiled, &no_creation_regions());
    assert_eq!(result, Ok(Some(Match::Full)));
}
