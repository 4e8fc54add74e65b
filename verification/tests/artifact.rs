use themql::artifact::{
    check_schema_counts, hex_first_16, ArtifactError, ArtifactMetadata, BincodeArtifactWriter, CompatibilityInfo,
    FileArtifactLoader, HashValidator, ModelArtifact, RuntimeInfo, TensorSchema,
};
use themql::error::{Error, ErrorCode};
use themql::schema::{
    FeatureDType, FeatureSchema, FeatureSpec, ModelFormat, NormalizationSpec, TrainedModel,
    ValidationMetrics,
};

fn digest(bytes: &[u8]) -> [u8; 32] {
    blake3::hash(bytes).into()
}

fn metrics(loss: f64, accuracy: Option<f64>) -> ValidationMetrics {
    ValidationMetrics {
        loss_bits: loss.to_bits(),
        accuracy_bits: accuracy.map(f64::to_bits),
        custom: Vec::new(),
    }
}

fn state_schema(len: usize) -> FeatureSchema {
    FeatureSchema {
        features: vec![FeatureSpec { name: "state".to_string(), dtype: FeatureDType::F32, shape: vec![len] }],
        normalization: NormalizationSpec::Unnormalized,
    }
}

fn sample_metadata() -> ArtifactMetadata {
    ArtifactMetadata {
        model_id: "pinn-v1".to_string(),
        training_version: "0.1".to_string(),
        dataset_version: "ds-0".to_string(),
        feature_schema: state_schema(21),
        normalization: NormalizationSpec::Unnormalized,
        validation_metrics: metrics(0.1, Some(0.9)),
        pruning_metadata: None,
    }
}

fn sample_artifact(bytes: Vec<u8>) -> ModelArtifact {
    let hash = digest(&bytes);
    ModelArtifact {
        model_bytes: bytes,
        format: ModelFormat::SafeTensors,
        hash,
        metadata: sample_metadata(),
        compatibility: CompatibilityInfo {
            runtime_version: "0.1".to_string(),
            architecture_version: "pinn-v1".to_string(),
            tensor_schema: TensorSchema {
                input_shapes: vec![vec![21]],
                output_shapes: vec![vec![21]],
                dtype: "f32".to_string(),
            },
        },
        schema_version: 1,
    }
}

fn target(runtime: &str, formats: Vec<ModelFormat>) -> RuntimeInfo {
    RuntimeInfo {
        runtime_version: runtime.to_string(),
        architecture_version: "pinn-v1".to_string(),
        supported_formats: formats,
    }
}

#[test]
fn artifact_error_variants_display() {
    assert_eq!(ArtifactError::HashMismatch.to_string(), "artifact hash mismatch");
    assert_eq!(ArtifactError::IncompatibleArchitecture.to_string(), "incompatible architecture");
}

#[test]
fn artifact_error_schema_mismatch_display() {
    let e = ArtifactError::SchemaMismatch { expected: "a".to_string(), got: "b".to_string() };
    assert_eq!(e.to_string(), "schema mismatch: expected a, got b");
    let core: Error = e.into();
    assert_eq!(core.code, ErrorCode::InternalError);
    assert_eq!(core.message, "schema mismatch: expected a, got b");
}

#[test]
fn hash_mismatch_detected() {
    let mut a = sample_artifact(vec![1, 2, 3]);
    a.hash = [0u8; 32];
    let report = HashValidator::new().validate(&a).expect("validate");
    assert!(!report.hash_ok);
    assert!(report.errors.contains(&ArtifactError::HashMismatch));
}

#[test]
fn hash_match_passes() {
    let a = sample_artifact(vec![1, 2, 3, 4, 5, 6]);
    let report = HashValidator::new().validate(&a).expect("validate");
    assert!(report.hash_ok);
    assert!(report.schema_ok);
    assert!(report.compatibility_ok);
    assert!(report.integrity_ok);
    assert!(report.errors.is_empty());
}

#[test]
fn short_circuit_on_hash_failure() {
    let mut a = sample_artifact(vec![1, 2, 3]);
    a.hash = [0u8; 32];
    let report = HashValidator::new().validate(&a).expect("validate");
    assert!(!report.hash_ok);
    assert!(!report.schema_ok);
    assert!(!report.compatibility_ok);
    assert!(!report.integrity_ok);
    assert_eq!(report.errors.len(), 1);
}

#[test]
fn schema_mismatch_detected() {
    let mut a = sample_artifact(vec![1, 2, 3, 4, 5, 6]);
    a.metadata.feature_schema.features =
        vec![FeatureSpec { name: "state".to_string(), dtype: FeatureDType::F32, shape: vec![99] }];
    let report = HashValidator::new().validate(&a).expect("validate");
    assert!(report.hash_ok);
    assert!(!report.schema_ok);
    assert!(report.errors.iter().any(|e| matches!(e, ArtifactError::SchemaMismatch { .. })));
    assert_eq!(
        report.errors[0],
        ArtifactError::SchemaMismatch {
            expected: "21 tensor input elements".to_string(),
            got: "99 feature elements".to_string(),
        }
    );
}

#[test]
fn empty_features_fails_schema() {
    let mut a = sample_artifact(vec![1, 2, 3, 4, 5, 6]);
    a.metadata.feature_schema.features = vec![];
    let report = HashValidator::new().validate(&a).expect("validate");
    assert!(report.hash_ok);
    assert!(!report.schema_ok);
    assert!(report.errors.contains(&ArtifactError::MissingMetadata));
}

#[test]
fn scalar_and_empty_dimension_shapes_count_one_element() {
    let mut a = sample_artifact(vec![1, 2, 3, 4, 5, 6]);
    a.metadata.feature_schema.features = vec![
        FeatureSpec { name: "s".to_string(), dtype: FeatureDType::F64, shape: vec![] },
        FeatureSpec { name: "z".to_string(), dtype: FeatureDType::F64, shape: vec![3, 0] },
        FeatureSpec { name: "m".to_string(), dtype: FeatureDType::F64, shape: vec![2, 3] },
    ];
    a.compatibility.tensor_schema.input_shapes = vec![vec![8]];
    let report = HashValidator::new().validate(&a).expect("validate");
    assert!(report.schema_ok);
}

#[test]
fn truncated_bytes_fail_integrity() {
    let a = sample_artifact(vec![1, 2]);
    let report = HashValidator::new().validate(&a).expect("validate");
    assert!(report.hash_ok);
    assert!(report.schema_ok);
    assert!(report.compatibility_ok);
    assert!(!report.integrity_ok);
    assert!(report.errors.contains(&ArtifactError::CorruptedArtifact));
}

#[test]
fn missing_runtime_version_is_incompatible_without_target() {
    let mut a = sample_artifact(vec![1, 2, 3, 4]);
    a.compatibility.runtime_version = String::new();
    let report = HashValidator::new().validate(&a).expect("validate");
    assert!(report.schema_ok);
    assert!(!report.compatibility_ok);
    assert_eq!(report.errors, vec![ArtifactError::IncompatibleRuntime]);
}

#[test]
fn compatibility_check_passes_on_match() {
    let a = sample_artifact(vec![1, 2, 3]);
    let t = target("0.1", vec![ModelFormat::SafeTensors]);
    assert!(HashValidator::new().check_compatibility(&a, &t).is_ok());
}

#[test]
fn compatibility_check_rejects_runtime_mismatch() {
    let a = sample_artifact(vec![1, 2, 3]);
    let t = target("0.2", vec![ModelFormat::SafeTensors]);
    let err = HashValidator::new().check_compatibility(&a, &t).unwrap_err();
    assert_eq!(err, ArtifactError::IncompatibleRuntime);
}

#[test]
fn compatibility_check_rejects_format_mismatch() {
    let a = sample_artifact(vec![1, 2, 3]);
    let t = target("0.1", vec![ModelFormat::Onnx]);
    let err = HashValidator::new().check_compatibility(&a, &t).unwrap_err();
    assert_eq!(err, ArtifactError::IncompatibleRuntime);
}

#[test]
fn compatibility_check_rejects_architecture_mismatch() {
    let a = sample_artifact(vec![1, 2, 3]);
    let mut t = target("0.1", vec![ModelFormat::SafeTensors]);
    t.architecture_version = "pinn-v2".to_string();
    let err = HashValidator::new().check_compatibility(&a, &t).unwrap_err();
    assert_eq!(err, ArtifactError::IncompatibleArchitecture);
}

fn model(bytes: Vec<u8>, format: ModelFormat) -> TrainedModel {
    TrainedModel {
        model_bytes: bytes,
        format,
        feature_schema: state_schema(21),
        validation_metrics: metrics(0.05, Some(0.95)),
    }
}

#[test]
fn writer_produces_valid_artifact() {
    let m = model(vec![0xAB; 64], ModelFormat::SafeTensors);
    let writer = BincodeArtifactWriter::new("0.1", "pinn-v1");
    let artifact = writer.write(&m, &sample_metadata()).expect("write");
    assert_eq!(artifact.model_bytes, m.model_bytes);
    assert_eq!(artifact.format, ModelFormat::SafeTensors);
    assert_eq!(artifact.hash, digest(&m.model_bytes));
    assert_eq!(artifact.compatibility.runtime_version, "0.1");
    assert_eq!(artifact.compatibility.architecture_version, "pinn-v1");
    assert_eq!(artifact.compatibility.tensor_schema.input_shapes, vec![vec![21]]);
    assert_eq!(artifact.compatibility.tensor_schema.dtype, "f32");
    assert_eq!(artifact.metadata, sample_metadata());
    assert_eq!(artifact.schema_version, 1);
    let report = HashValidator::new().validate(&artifact).expect("validate");
    assert!(report.errors.is_empty());
}

#[test]
fn written_artifact_passes_a_matching_target() {
    let m = model(vec![7; 16], ModelFormat::Onnx);
    let artifact = BincodeArtifactWriter::new("0.3", "pinn-v1").write(&m, &sample_metadata()).unwrap();
    let v = HashValidator::with_target(target("0.3", vec![ModelFormat::TorchScript, ModelFormat::Onnx]));
    assert!(v.validate(&artifact).unwrap().errors.is_empty());
}

#[test]
fn writer_rejects_empty_model() {
    let m = model(vec![], ModelFormat::SafeTensors);
    let writer = BincodeArtifactWriter::new("0.1", "pinn-v1");
    let err = writer.write(&m, &sample_metadata()).unwrap_err();
    assert_eq!(err, ArtifactError::CorruptedArtifact);
}

#[test]
fn loader_activates_valid_artifact() {
    let a = sample_artifact(vec![0xAB; 64]);
    let handle = FileArtifactLoader::new().activate(&a).expect("activate");
    assert_eq!(handle.model_id, "pinn-v1");
}

#[test]
fn loader_rejects_activation_of_invalid_artifact() {
    let mut a = sample_artifact(vec![0xAB; 64]);
    a.hash = [0u8; 32];
    let err = FileArtifactLoader::new().activate(&a).unwrap_err();
    assert_eq!(err, ArtifactError::ActivationFailed("artifact hash mismatch".to_string()));
}

#[test]
fn loader_rejects_activation_of_empty_bytes() {
    let mut a = sample_artifact(vec![1, 2, 3, 4]);
    a.model_bytes = vec![];
    let err = FileArtifactLoader::new().activate(&a).unwrap_err();
    assert_eq!(err, ArtifactError::ActivationFailed("empty model bytes".to_string()));
}

#[test]
fn loader_accepts_valid_and_refuses_invalid_artifacts() {
    let loader = FileArtifactLoader::new();
    let a = sample_artifact(vec![0xAB; 64]);
    assert_eq!(loader.accept(a.clone()), Ok(a));
    let short = sample_artifact(vec![1]);
    assert_eq!(
        loader.accept(short),
        Err(ArtifactError::ValidationFailed("corrupted artifact".to_string()))
    );
}

#[test]
fn validate_with_target_runtime() {
    let a = sample_artifact(vec![0xAB; 64]);
    let v = HashValidator::with_target(target("0.1", vec![ModelFormat::SafeTensors]));
    assert!(v.validate(&a).expect("validate").errors.is_empty());
}

#[test]
fn validate_with_target_runtime_rejects_mismatch() {
    let a = sample_artifact(vec![0xAB; 64]);
    let v = HashValidator::with_target(target("0.9", vec![ModelFormat::SafeTensors]));
    let report = v.validate(&a).expect("validate");
    assert!(report.hash_ok);
    assert!(report.schema_ok);
    assert!(!report.compatibility_ok);
    assert!(report.errors.contains(&ArtifactError::IncompatibleRuntime));
}

#[test]
fn hex_first_16_formats_correctly() {
    let bytes = [0xab, 0xcd, 0xef];
    assert_eq!(hex_first_16(&bytes), "abcdef");
}

#[test]
fn hex_first_16_keeps_sixteen_bytes() {
    let bytes = [0x01u8; 20];
    assert_eq!(hex_first_16(&bytes), "01".repeat(16));
}

#[test]
fn schema_counts_fit_for_ordinary_shapes() {
    let a = sample_artifact(vec![1, 2, 3, 4, 5, 6]);
    assert!(check_schema_counts(&a));
}

#[test]
fn schema_counts_overflowing_product_is_detected() {
    let mut a = sample_artifact(vec![1, 2, 3, 4, 5, 6]);
    a.metadata.feature_schema.features[0].shape = vec![usize::MAX, 2, 0];
    assert!(!check_schema_counts(&a));
}

#[test]
fn schema_counts_overflowing_total_is_detected() {
    let mut a = sample_artifact(vec![1, 2, 3, 4, 5, 6]);
    a.compatibility.tensor_schema.input_shapes = vec![vec![usize::MAX], vec![1]];
    assert!(!check_schema_counts(&a));
}

#[test]
fn schema_counts_ignored_without_inputs() {
    let mut a = sample_artifact(vec![1, 2, 3, 4, 5, 6]);
    a.metadata.feature_schema.features[0].shape = vec![usize::MAX, 2];
    a.compatibility.tensor_schema.input_shapes = Vec::new();
    assert!(check_schema_counts(&a));
}

fn count_overflow() -> ArtifactError {
    ArtifactError::SchemaMismatch {
        expected: "element counts within usize".to_string(),
        got: "an element count overflow".to_string(),
    }
}

#[test]
fn overflowing_schema_counts_fail_the_schema_step() {
    let mut a = sample_artifact(vec![1, 2, 3, 4, 5, 6]);
    a.metadata.feature_schema.features[0].shape = vec![usize::MAX, 2];
    let report = HashValidator::new().validate(&a).expect("validate");
    assert!(report.hash_ok);
    assert!(!report.schema_ok);
    assert_eq!(report.errors, vec![count_overflow()]);
}

#[test]
fn overflowing_schema_counts_after_a_hash_mismatch_report_the_mismatch() {
    let mut a = sample_artifact(vec![1, 2, 3, 4, 5, 6]);
    a.metadata.feature_schema.features[0].shape = vec![usize::MAX, 2];
    a.hash = [0u8; 32];
    let report = HashValidator::new().validate(&a).expect("validate");
    assert_eq!(report.errors, vec![ArtifactError::HashMismatch]);
}

#[test]
fn writer_refuses_overflowing_feature_counts() {
    let mut meta = sample_metadata();
    meta.feature_schema.features[0].shape = vec![usize::MAX, 2];
    let writer = BincodeArtifactWriter::new("0.1", "pinn-v1");
    let err = writer.write(&model(vec![1, 2, 3, 4], ModelFormat::Onnx), &meta).unwrap_err();
    assert_eq!(err, count_overflow());
    let err = writer.write(&model(vec![], ModelFormat::Onnx), &meta).unwrap_err();
    assert_eq!(err, ArtifactError::CorruptedArtifact);
}

#[test]
fn activation_of_empty_bytes_is_refused_before_counting() {
    let mut a = sample_artifact(vec![]);
    a.metadata.feature_schema.features[0].shape = vec![usize::MAX, 2];
    let err = FileArtifactLoader::new().activate(&a).unwrap_err();
    assert_eq!(err, ArtifactError::ActivationFailed("empty model bytes".to_string()));
}

#[test]
fn activation_is_stamped_with_the_wall_clock() {
    let a = sample_artifact(vec![0xAB; 64]);
    let handle = FileArtifactLoader::new().activate(&a).expect("activate");
    assert_eq!(handle.activated_at.kind, themql::model::TimestampKind::WallClock);
    assert!(handle.activated_at.nanos_since_epoch > 0);
}
