//! Validated transfer of trained models: the model artifact, its
//! validation pipeline (hash, schema, compatibility, integrity), the
//! loader's acceptance and activation rules, and the writer that packages
//! a trained model.
use vstd::prelude::*;
use vstd::string::*;

use crate::digest::{blake3_digest, blake3_hash};
use crate::error::{plain_error, Error, ErrorCode};
use crate::model::{Timestamp, TimestampKind};
use crate::schema::{
    feature_shapes, lemma_same_schema_shapes, same_schema, FeatureSchema, FeatureSpec, ModelFormat,
    NormalizationSpec, TrainedModel, ValidationMetrics,
};
use crate::text::{decimal, decimal_text, hex_lower, hex_text};

verus! {

// ===========================================================================
// Types
// ===========================================================================

/// Pruning metadata; sparsities are held as the bits of their `f32`.
#[derive(Debug, PartialEq, Eq)]
pub struct PruningMetadata {
    /// Pruning strategy name.
    pub strategy: String,
    /// Bits of the target sparsity.
    pub target_sparsity_bits: u32,
    /// Bits of the achieved sparsity.
    pub achieved_sparsity_bits: u32,
}

impl Clone for PruningMetadata {
    fn clone(&self) -> (r: Self)
        ensures
            r == *self,
    {
        PruningMetadata {
            strategy: self.strategy.clone(),
            target_sparsity_bits: self.target_sparsity_bits,
            achieved_sparsity_bits: self.achieved_sparsity_bits,
        }
    }
}

/// Tensor shapes of the model's inputs and outputs.
#[derive(Debug, Clone, PartialEq, Eq)]
pub struct TensorSchema {
    /// Input tensor shapes.
    pub input_shapes: Vec<Vec<usize>>,
    /// Output tensor shapes.
    pub output_shapes: Vec<Vec<usize>>,
    /// Element type name, such as `f32`.
    pub dtype: String,
}

/// Runtime and architecture compatibility of an artifact.
#[derive(Debug, Clone, PartialEq, Eq)]
pub struct CompatibilityInfo {
    /// Version of the runtime that produced the artifact.
    pub runtime_version: String,
    /// Model architecture tag.
    pub architecture_version: String,
    /// Tensor input/output contract.
    pub tensor_schema: TensorSchema,
}

/// The metadata carried with an artifact.
#[derive(Debug, PartialEq, Eq)]
pub struct ArtifactMetadata {
    /// Stable model identifier.
    pub model_id: String,
    /// Training run version.
    pub training_version: String,
    /// Dataset version.
    pub dataset_version: String,
    /// Input feature schema.
    pub feature_schema: FeatureSchema,
    /// Normalisation applied to inputs.
    pub normalization: NormalizationSpec,
    /// Validation metrics of training.
    pub validation_metrics: ValidationMetrics,
    /// Pruning metadata, if the model was pruned.
    pub pruning_metadata: Option<PruningMetadata>,
}

/// Two metadata records agree: equal identities, versions, normalisation,
/// metrics and pruning, agreeing feature schemas.
pub open spec fn same_metadata(a: ArtifactMetadata, b: ArtifactMetadata) -> bool {
    &&& a.model_id == b.model_id
    &&& a.training_version == b.training_version
    &&& a.dataset_version == b.dataset_version
    &&& same_schema(a.feature_schema, b.feature_schema)
    &&& a.normalization == b.normalization
    &&& a.validation_metrics.loss_bits == b.validation_metrics.loss_bits
    &&& a.validation_metrics.accuracy_bits == b.validation_metrics.accuracy_bits
    &&& a.validation_metrics.custom@ == b.validation_metrics.custom@
    &&& a.pruning_metadata == b.pruning_metadata
}

impl Clone for ArtifactMetadata {
    fn clone(&self) -> (r: Self)
        ensures
            same_metadata(r, *self),
    {
        let pruning_metadata = match &self.pruning_metadata {
            Some(p) => Some(p.clone()),
            None => None,
        };
        ArtifactMetadata {
            model_id: self.model_id.clone(),
            training_version: self.training_version.clone(),
            dataset_version: self.dataset_version.clone(),
            feature_schema: self.feature_schema.clone(),
            normalization: self.normalization.clone(),
            validation_metrics: self.validation_metrics.clone(),
            pruning_metadata,
        }
    }
}

/// The hash-stamped, schema-tagged unit that crosses from training to
/// inference.
#[derive(Debug, Clone, PartialEq, Eq)]
pub struct ModelArtifact {
    /// Raw model bytes.
    pub model_bytes: Vec<u8>,
    /// Their format.
    pub format: ModelFormat,
    /// BLAKE3 digest of `model_bytes`.
    pub hash: [u8; 32],
    /// Full metadata.
    pub metadata: ArtifactMetadata,
    /// Compatibility information.
    pub compatibility: CompatibilityInfo,
    /// Artifact schema version.
    pub schema_version: u16,
}

/// The target runtime of compatibility checks.
#[derive(Debug, Clone, PartialEq, Eq)]
pub struct RuntimeInfo {
    /// Runtime version on the target.
    pub runtime_version: String,
    /// Architecture tag the target supports.
    pub architecture_version: String,
    /// Model formats the target can load.
    pub supported_formats: Vec<ModelFormat>,
}

/// Proof that a model was activated.
#[derive(Debug, Clone, PartialEq, Eq)]
pub struct ActivationHandle {
    /// The activated model's id.
    pub model_id: String,
    /// When it was activated.
    pub activated_at: Timestamp,
}

// ===========================================================================
// Errors
// ===========================================================================

/// Errors of validation, loading and writing.
#[derive(Debug, Clone, PartialEq, Eq)]
pub enum ArtifactError {
    /// The digest of the model bytes differs from the stamped hash.
    HashMismatch,
    /// Feature and tensor schemas disagree.
    SchemaMismatch {
        /// The expected side.
        expected: String,
        /// The side found.
        got: String,
    },
    /// The runtime version is not supported by the target.
    IncompatibleRuntime,
    /// The architecture is not supported by the target.
    IncompatibleArchitecture,
    /// The model bytes are truncated or corrupt.
    CorruptedArtifact,
    /// Required metadata is missing.
    MissingMetadata,
    /// The validation pipeline failed.
    ValidationFailed(String),
    /// Activation failed.
    ActivationFailed(String),
    /// Rollback failed.
    RollbackFailed(String),
    /// I/O failed.
    Io(String),
    /// Encoding or decoding failed.
    Serialization(String),
}

/// An artifact error with its texts as character sequences.
pub enum ArtifactErrorView {
    HashMismatch,
    SchemaMismatch { expected: Seq<char>, got: Seq<char> },
    IncompatibleRuntime,
    IncompatibleArchitecture,
    CorruptedArtifact,
    MissingMetadata,
    ValidationFailed(Seq<char>),
    ActivationFailed(Seq<char>),
    RollbackFailed(Seq<char>),
    Io(Seq<char>),
    Serialization(Seq<char>),
}

impl View for ArtifactError {
    type V = ArtifactErrorView;

    open spec fn view(&self) -> ArtifactErrorView {
        match self {
            ArtifactError::HashMismatch => ArtifactErrorView::HashMismatch,
            ArtifactError::SchemaMismatch { expected, got } => ArtifactErrorView::SchemaMismatch {
                expected: expected@,
                got: got@,
            },
            ArtifactError::IncompatibleRuntime => ArtifactErrorView::IncompatibleRuntime,
            ArtifactError::IncompatibleArchitecture => ArtifactErrorView::IncompatibleArchitecture,
            ArtifactError::CorruptedArtifact => ArtifactErrorView::CorruptedArtifact,
            ArtifactError::MissingMetadata => ArtifactErrorView::MissingMetadata,
            ArtifactError::ValidationFailed(m) => ArtifactErrorView::ValidationFailed(m@),
            ArtifactError::ActivationFailed(m) => ArtifactErrorView::ActivationFailed(m@),
            ArtifactError::RollbackFailed(m) => ArtifactErrorView::RollbackFailed(m@),
            ArtifactError::Io(m) => ArtifactErrorView::Io(m@),
            ArtifactError::Serialization(m) => ArtifactErrorView::Serialization(m@),
        }
    }
}

/// The message of an artifact error.
pub open spec fn artifact_error_message(e: ArtifactErrorView) -> Seq<char> {
    match e {
        ArtifactErrorView::HashMismatch => "artifact hash mismatch"@,
        ArtifactErrorView::SchemaMismatch { expected, got } => "schema mismatch: expected "@
            + expected + ", got "@ + got,
        ArtifactErrorView::IncompatibleRuntime => "incompatible runtime"@,
        ArtifactErrorView::IncompatibleArchitecture => "incompatible architecture"@,
        ArtifactErrorView::CorruptedArtifact => "corrupted artifact"@,
        ArtifactErrorView::MissingMetadata => "missing metadata"@,
        ArtifactErrorView::ValidationFailed(m) => "validation failed: "@ + m,
        ArtifactErrorView::ActivationFailed(m) => "activation failed: "@ + m,
        ArtifactErrorView::RollbackFailed(m) => "rollback failed: "@ + m,
        ArtifactErrorView::Io(m) => "io error: "@ + m,
        ArtifactErrorView::Serialization(m) => "serialization error: "@ + m,
    }
}

fn prefixed(prefix: &str, m: &String) -> (s: String)
    ensures
        s@ == prefix@ + m@,
{
    let mut s = String::from_str(prefix);
    s.append(m.as_str());
    s
}

impl ArtifactError {
    /// The message of this error.
    pub fn to_string(&self) -> (s: String)
        ensures
            s@ == artifact_error_message(self@),
    {
        match self {
            ArtifactError::HashMismatch => String::from_str("artifact hash mismatch"),
            ArtifactError::SchemaMismatch { expected, got } => {
                let mut s = String::from_str("schema mismatch: expected ");
                s.append(expected.as_str());
                s.append(", got ");
                s.append(got.as_str());
                s
            },
            ArtifactError::IncompatibleRuntime => String::from_str("incompatible runtime"),
            ArtifactError::IncompatibleArchitecture => String::from_str("incompatible architecture"),
            ArtifactError::CorruptedArtifact => String::from_str("corrupted artifact"),
            ArtifactError::MissingMetadata => String::from_str("missing metadata"),
            ArtifactError::ValidationFailed(m) => prefixed("validation failed: ", m),
            ArtifactError::ActivationFailed(m) => prefixed("activation failed: ", m),
            ArtifactError::RollbackFailed(m) => prefixed("rollback failed: ", m),
            ArtifactError::Io(m) => prefixed("io error: ", m),
            ArtifactError::Serialization(m) => prefixed("serialization error: ", m),
        }
    }
}

impl vstd::std_specs::convert::FromSpecImpl<ArtifactError> for Error {
    /// The conversion is stated by the `ensures` of `from` itself.
    open spec fn obeys_from_spec() -> bool {
        false
    }

    open spec fn from_spec(e: ArtifactError) -> Error {
        vstd::pervasive::arbitrary()
    }
}

impl From<ArtifactError> for Error {
    /// Every artifact error is an internal error carrying its message.
    fn from(e: ArtifactError) -> (r: Error)
        ensures
            plain_error(r, ErrorCode::InternalError, artifact_error_message(e@)),
    {
        let m = e.to_string();
        Error::internal_error(m.as_str())
    }
}

// ===========================================================================
// Element counts
// ===========================================================================

/// The product of a shape's dimensions (1 for the empty shape).
pub open spec fn shape_product(s: Seq<usize>) -> nat
    decreases s.len(),
{
    if s.len() == 0 {
        1
    } else {
        shape_product(s.drop_last()) * (s.last() as nat)
    }
}

/// Every partial product of the shape fits in a `usize`.
pub open spec fn shape_fits(s: Seq<usize>) -> bool {
    forall|k: int| 0 <= k <= s.len() ==> #[trigger] shape_product(s.take(k)) <= usize::MAX
}

/// The element count of a shape: its product, at least 1.
pub open spec fn shape_elements(s: Seq<usize>) -> nat {
    let p = shape_product(s);
    if p >= 1 {
        p
    } else {
        1
    }
}

/// The total element count of a sequence of shapes.
pub open spec fn total_elements(shapes: Seq<Seq<usize>>) -> nat
    decreases shapes.len(),
{
    if shapes.len() == 0 {
        0
    } else {
        total_elements(shapes.drop_last()) + shape_elements(shapes.last())
    }
}

/// Every shape's products, and the total, fit in a `usize`.
pub open spec fn shapes_fit(shapes: Seq<Seq<usize>>) -> bool {
    &&& forall|i: int| 0 <= i < shapes.len() ==> shape_fits(#[trigger] shapes[i])
    &&& total_elements(shapes) <= usize::MAX
}

/// The views of a sequence of shape vectors.
pub open spec fn shape_views(v: Seq<Vec<usize>>) -> Seq<Seq<usize>> {
    v.map_values(|s: Vec<usize>| s@)
}

/// The total over a prefix is at most the total.
proof fn lemma_total_prefix(shapes: Seq<Seq<usize>>, i: int)
    requires
        0 <= i <= shapes.len(),
    ensures
        total_elements(shapes.take(i)) <= total_elements(shapes),
    decreases shapes.len(),
{
    if i == shapes.len() {
        assert(shapes.take(i) =~= shapes);
    } else {
        assert(shapes.drop_last().take(i) =~= shapes.take(i));
        lemma_total_prefix(shapes.drop_last(), i);
    }
}

/// The element count of one shape.
fn shape_elements_of(shape: &Vec<usize>) -> (r: usize)
    requires
        shape_fits(shape@),
    ensures
        r == shape_elements(shape@),
{
    let n = shape.len();
    let mut p: usize = 1;
    let mut i: usize = 0;
    assert(shape@.take(0) =~= Seq::<usize>::empty());
    while i < n
        invariant
            n == shape@.len(),
            i <= n,
            shape_fits(shape@),
            p == shape_product(shape@.take(i as int)),
        decreases n - i,
    {
        assert(shape@.take(i + 1).drop_last() =~= shape@.take(i as int));
        assert(shape_product(shape@.take(i + 1)) <= usize::MAX);
        p = p * shape[i];
        i += 1;
    }
    assert(shape@.take(n as int) =~= shape@);
    if p >= 1 {
        p
    } else {
        1
    }
}

/// The total element count of the features' shapes.
fn feature_elements_of(features: &Vec<FeatureSpec>) -> (r: usize)
    requires
        shapes_fit(feature_shapes(features@)),
    ensures
        r == total_elements(feature_shapes(features@)),
{
    let ghost shapes = feature_shapes(features@);
    let n = features.len();
    let mut total: usize = 0;
    let mut i: usize = 0;
    assert(shapes.take(0) =~= Seq::<Seq<usize>>::empty());
    while i < n
        invariant
            n == features@.len(),
            shapes == feature_shapes(features@),
            shapes_fit(shapes),
            i <= n,
            total == total_elements(shapes.take(i as int)),
        decreases n - i,
    {
        assert(shapes[i as int] == features@[i as int].shape@);
        assert(shapes.take(i + 1).drop_last() =~= shapes.take(i as int));
        proof {
            lemma_total_prefix(shapes, i + 1);
        }
        let e = shape_elements_of(&features[i].shape);
        total = total + e;
        i += 1;
    }
    assert(shapes.take(n as int) =~= shapes);
    total
}

/// The total element count of tensor shapes.
fn tensor_elements_of(shapes_in: &Vec<Vec<usize>>) -> (r: usize)
    requires
        shapes_fit(shape_views(shapes_in@)),
    ensures
        r == total_elements(shape_views(shapes_in@)),
{
    let ghost shapes = shape_views(shapes_in@);
    let n = shapes_in.len();
    let mut total: usize = 0;
    let mut i: usize = 0;
    assert(shapes.take(0) =~= Seq::<Seq<usize>>::empty());
    while i < n
        invariant
            n == shapes_in@.len(),
            shapes == shape_views(shapes_in@),
            shapes_fit(shapes),
            i <= n,
            total == total_elements(shapes.take(i as int)),
        decreases n - i,
    {
        assert(shapes[i as int] == shapes_in@[i as int]@);
        assert(shapes.take(i + 1).drop_last() =~= shapes.take(i as int));
        proof {
            lemma_total_prefix(shapes, i + 1);
        }
        let e = shape_elements_of(&shapes_in[i]);
        total = total + e;
        i += 1;
    }
    assert(shapes.take(n as int) =~= shapes);
    total
}

/// The element count of one shape, or `None` when one of its partial
/// products overflows a `usize`.
fn checked_shape_elements(shape: &Vec<usize>) -> (r: Option<usize>)
    ensures
        match r {
            Some(e) => shape_fits(shape@) && e == shape_elements(shape@),
            None => !shape_fits(shape@),
        },
{
    let n = shape.len();
    let mut p: usize = 1;
    let mut i: usize = 0;
    assert(shape@.take(0) =~= Seq::<usize>::empty());
    while i < n
        invariant
            n == shape@.len(),
            i <= n,
            p == shape_product(shape@.take(i as int)),
            forall|k: int| 0 <= k <= i ==> #[trigger] shape_product(shape@.take(k)) <= usize::MAX,
        decreases n - i,
    {
        assert(shape@.take(i + 1).drop_last() =~= shape@.take(i as int));
        match p.checked_mul(shape[i]) {
            Some(q) => {
                p = q;
                i += 1;
            },
            None => {
                assert(shape_product(shape@.take(i + 1)) > usize::MAX);
                return None;
            },
        }
    }
    assert(shape@.take(n as int) =~= shape@);
    if p >= 1 {
        Some(p)
    } else {
        Some(1)
    }
}

/// Adds the element count of `shape`, the shape that follows the prefix of
/// `shapes` whose total is `total`, or gives `None` on overflow.
fn checked_total_step(
    total: usize,
    shape: &Vec<usize>,
    Ghost(shapes): Ghost<Seq<Seq<usize>>>,
    Ghost(i): Ghost<int>,
) -> (r: Option<usize>)
    requires
        0 <= i < shapes.len(),
        shapes[i] == shape@,
        total == total_elements(shapes.take(i)),
        forall|j: int| 0 <= j < i ==> shape_fits(#[trigger] shapes[j]),
    ensures
        match r {
            Some(t) => {
                &&& t == total_elements(shapes.take(i + 1))
                &&& forall|j: int| 0 <= j <= i ==> shape_fits(#[trigger] shapes[j])
            },
            None => !shapes_fit(shapes),
        },
{
    assert(shapes.take(i + 1).drop_last() =~= shapes.take(i));
    proof {
        lemma_total_prefix(shapes, i + 1);
    }
    match checked_shape_elements(shape) {
        None => None,
        Some(e) => match total.checked_add(e) {
            Some(t) => Some(t),
            None => None,
        },
    }
}

/// Whether the features' shapes fit (`shapes_fit`).
fn feature_shapes_fit(features: &Vec<FeatureSpec>) -> (r: bool)
    ensures
        r == shapes_fit(feature_shapes(features@)),
{
    let ghost shapes = feature_shapes(features@);
    let n = features.len();
    let mut total: usize = 0;
    let mut i: usize = 0;
    assert(shapes.take(0) =~= Seq::<Seq<usize>>::empty());
    while i < n
        invariant
            n == features@.len(),
            shapes == feature_shapes(features@),
            i <= n,
            total == total_elements(shapes.take(i as int)),
            forall|j: int| 0 <= j < i ==> shape_fits(#[trigger] shapes[j]),
        decreases n - i,
    {
        assert(shapes[i as int] == features@[i as int].shape@);
        match checked_total_step(total, &features[i].shape, Ghost(shapes), Ghost(i as int)) {
            Some(t) => {
                total = t;
                i += 1;
            },
            None => return false,
        }
    }
    assert(shapes.take(n as int) =~= shapes);
    true
}

/// Whether the tensor shapes fit (`shapes_fit`).
fn tensor_shapes_fit(shapes_in: &Vec<Vec<usize>>) -> (r: bool)
    ensures
        r == shapes_fit(shape_views(shapes_in@)),
{
    let ghost shapes = shape_views(shapes_in@);
    let n = shapes_in.len();
    let mut total: usize = 0;
    let mut i: usize = 0;
    assert(shapes.take(0) =~= Seq::<Seq<usize>>::empty());
    while i < n
        invariant
            n == shapes_in@.len(),
            shapes == shape_views(shapes_in@),
            i <= n,
            total == total_elements(shapes.take(i as int)),
            forall|j: int| 0 <= j < i ==> shape_fits(#[trigger] shapes[j]),
        decreases n - i,
    {
        assert(shapes[i as int] == shapes_in@[i as int]@);
        match checked_total_step(total, &shapes_in[i], Ghost(shapes), Ghost(i as int)) {
            Some(t) => {
                total = t;
                i += 1;
            },
            None => return false,
        }
    }
    assert(shapes.take(n as int) =~= shapes);
    true
}

// ===========================================================================
// Validation
// ===========================================================================

/// The feature shapes of an artifact's metadata.
pub open spec fn artifact_feature_shapes(a: ModelArtifact) -> Seq<Seq<usize>> {
    feature_shapes(a.metadata.feature_schema.features@)
}

/// The tensor input shapes of an artifact.
pub open spec fn artifact_input_shapes(a: ModelArtifact) -> Seq<Seq<usize>> {
    shape_views(a.compatibility.tensor_schema.input_shapes@)
}

/// When both the features and the tensor inputs are declared, their
/// element counts fit in a `usize`.
pub open spec fn schema_counts_fit(a: ModelArtifact) -> bool {
    (artifact_feature_shapes(a).len() > 0 && artifact_input_shapes(a).len() > 0) ==> (shapes_fit(
        artifact_feature_shapes(a),
    ) && shapes_fit(artifact_input_shapes(a)))
}

/// Whether the artifact's schema element counts fit in a `usize`, the
/// condition under which the validator can count them.
pub fn check_schema_counts(a: &ModelArtifact) -> (r: bool)
    ensures
        r == schema_counts_fit(*a),
{
    let features = &a.metadata.feature_schema.features;
    let inputs = &a.compatibility.tensor_schema.input_shapes;
    if features.len() == 0 || inputs.len() == 0 {
        return true;
    }
    feature_shapes_fit(features) && tensor_shapes_fit(inputs)
}

/// The finding on a schema whose element counts overflow a `usize`.
pub open spec fn count_overflow_error() -> ArtifactErrorView {
    ArtifactErrorView::SchemaMismatch {
        expected: "element counts within usize"@,
        got: "an element count overflow"@,
    }
}

/// The error for a schema whose element counts overflow a `usize`.
fn count_overflow() -> (r: ArtifactError)
    ensures
        r@ == count_overflow_error(),
{
    proof {
        reveal_strlit("element counts within usize");
        reveal_strlit("an element count overflow");
    }
    ArtifactError::SchemaMismatch {
        expected: String::from_str("element counts within usize"),
        got: String::from_str("an element count overflow"),
    }
}

/// The schema step's finding, as an error: missing features or inputs,
/// element counts that overflow a `usize`, or unequal counts; `None`
/// when the feature element count equals the tensor input element count.
pub open spec fn schema_error(a: ModelArtifact) -> Option<ArtifactErrorView> {
    let fs = artifact_feature_shapes(a);
    let ts = artifact_input_shapes(a);
    if fs.len() == 0 || ts.len() == 0 {
        Some(ArtifactErrorView::MissingMetadata)
    } else if !schema_counts_fit(a) {
        Some(count_overflow_error())
    } else if total_elements(fs) != total_elements(ts) {
        Some(
            ArtifactErrorView::SchemaMismatch {
                expected: decimal_text(total_elements(ts)) + " tensor input elements"@,
                got: decimal_text(total_elements(fs)) + " feature elements"@,
            },
        )
    } else {
        None
    }
}

/// The compatibility step's finding against a target, as an error.
pub open spec fn compat_error(a: ModelArtifact, t: RuntimeInfo) -> Option<ArtifactErrorView> {
    if a.compatibility.runtime_version@ != t.runtime_version@ {
        Some(ArtifactErrorView::IncompatibleRuntime)
    } else if a.compatibility.architecture_version@ != t.architecture_version@ {
        Some(ArtifactErrorView::IncompatibleArchitecture)
    } else if !t.supported_formats@.contains(a.format) {
        Some(ArtifactErrorView::IncompatibleRuntime)
    } else {
        None
    }
}

/// A validation report with its errors as views.
pub struct ReportView {
    pub hash_ok: bool,
    pub schema_ok: bool,
    pub compatibility_ok: bool,
    pub integrity_ok: bool,
    pub errors: Seq<ArtifactErrorView>,
}

/// The outcome of the validation pipeline.
#[derive(Debug, Clone, PartialEq, Eq)]
pub struct ValidationReport {
    /// The digest matched.
    pub hash_ok: bool,
    /// The schema matched.
    pub schema_ok: bool,
    /// Runtime and architecture are compatible.
    pub compatibility_ok: bool,
    /// The bytes are structurally intact.
    pub integrity_ok: bool,
    /// The errors found; empty on full success.
    pub errors: Vec<ArtifactError>,
}

impl View for ValidationReport {
    type V = ReportView;

    open spec fn view(&self) -> ReportView {
        ReportView {
            hash_ok: self.hash_ok,
            schema_ok: self.schema_ok,
            compatibility_ok: self.compatibility_ok,
            integrity_ok: self.integrity_ok,
            errors: self.errors@.map_values(|e: ArtifactError| e@),
        }
    }
}

/// The report after the hash, schema and compatibility steps passed: the
/// integrity step decides (at least 4 bytes).
pub open spec fn integrity_report(a: ModelArtifact) -> ReportView {
    let ok = a.model_bytes@.len() >= 4;
    ReportView {
        hash_ok: true,
        schema_ok: true,
        compatibility_ok: true,
        integrity_ok: ok,
        errors: if ok {
            Seq::empty()
        } else {
            seq![ArtifactErrorView::CorruptedArtifact]
        },
    }
}

/// The pipeline's report for artifact `a`: hash, then schema, then
/// compatibility (against `target`, or, without one, a declared runtime
/// version), then integrity; each failing step records its error and ends
/// the pipeline.
pub open spec fn validation_report(target: Option<RuntimeInfo>, a: ModelArtifact) -> ReportView {
    if blake3_digest(a.model_bytes@) != a.hash@ {
        ReportView {
            hash_ok: false,
            schema_ok: false,
            compatibility_ok: false,
            integrity_ok: false,
            errors: seq![ArtifactErrorView::HashMismatch],
        }
    } else if let Some(e) = schema_error(a) {
        ReportView {
            hash_ok: true,
            schema_ok: false,
            compatibility_ok: false,
            integrity_ok: false,
            errors: seq![e],
        }
    } else {
        let compat = match target {
            Some(t) => compat_error(a, t),
            None => if a.compatibility.runtime_version@.len() == 0 {
                Some(ArtifactErrorView::IncompatibleRuntime)
            } else {
                None
            },
        };
        match compat {
            Some(e) => ReportView {
                hash_ok: true,
                schema_ok: true,
                compatibility_ok: false,
                integrity_ok: false,
                errors: seq![e],
            },
            None => integrity_report(a),
        }
    }
}

/// Whether two digests are equal.
fn digests_equal(a: &[u8; 32], b: &[u8; 32]) -> (r: bool)
    ensures
        r == (a@ == b@),
{
    let mut i: usize = 0;
    while i < 32
        invariant
            a@.len() == 32,
            b@.len() == 32,
            i <= 32,
            forall|k: int| 0 <= k < i ==> a@[k] == b@[k],
        decreases 32 - i,
    {
        if a[i] != b[i] {
            return false;
        }
        i += 1;
    }
    assert(a@ =~= b@);
    true
}

/// Whether `f` is among `formats`.
fn format_supported(formats: &Vec<ModelFormat>, f: ModelFormat) -> (r: bool)
    ensures
        r == formats@.contains(f),
{
    let n = formats.len();
    let mut i: usize = 0;
    while i < n
        invariant
            n == formats@.len(),
            i <= n,
            forall|k: int| 0 <= k < i ==> formats@[k] != f,
        decreases n - i,
    {
        if formats[i] == f {
            assert(formats@[i as int] == f);
            return true;
        }
        i += 1;
    }
    false
}

/// The schema step of the pipeline.
fn check_schema(a: &ModelArtifact) -> (r: Option<ArtifactError>)
    ensures
        match r {
            Some(e) => schema_error(*a) == Some(e@),
            None => schema_error(*a) is None,
        },
{
    let features = &a.metadata.feature_schema.features;
    let inputs = &a.compatibility.tensor_schema.input_shapes;
    if features.len() == 0 || inputs.len() == 0 {
        return Some(ArtifactError::MissingMetadata);
    }
    if !check_schema_counts(a) {
        return Some(count_overflow());
    }
    let fe = feature_elements_of(features);
    let te = tensor_elements_of(inputs);
    if fe != te {
        let mut expected = decimal(te as u64);
        expected.append(" tensor input elements");
        let mut got = decimal(fe as u64);
        got.append(" feature elements");
        return Some(ArtifactError::SchemaMismatch { expected, got });
    }
    None
}

/// The compatibility step against a target.
fn compat_check(a: &ModelArtifact, target: &RuntimeInfo) -> (r: Result<(), ArtifactError>)
    ensures
        match r {
            Ok(()) => compat_error(*a, *target) is None,
            Err(e) => compat_error(*a, *target) == Some(e@),
        },
{
    if !(a.compatibility.runtime_version == target.runtime_version) {
        return Err(ArtifactError::IncompatibleRuntime);
    }
    if !(a.compatibility.architecture_version == target.architecture_version) {
        return Err(ArtifactError::IncompatibleArchitecture);
    }
    if !format_supported(&target.supported_formats, a.format) {
        return Err(ArtifactError::IncompatibleRuntime);
    }
    Ok(())
}

/// A report whose errors are the single error `e`.
fn failed_report(
    hash_ok: bool,
    schema_ok: bool,
    e: ArtifactError,
) -> (r: ValidationReport)
    ensures
        r@ == (ReportView {
            hash_ok,
            schema_ok,
            compatibility_ok: false,
            integrity_ok: false,
            errors: seq![e@],
        }),
{
    let mut errors: Vec<ArtifactError> = Vec::new();
    errors.push(e);
    let r = ValidationReport { hash_ok, schema_ok, compatibility_ok: false, integrity_ok: false, errors };
    assert(r@.errors =~= seq![e@]);
    r
}

/// Validator checking the digest, the schema, compatibility (against an
/// optional target runtime) and integrity, in that order, stopping at the
/// first failing step.
#[derive(Debug, Clone)]
pub struct HashValidator {
    target: Option<RuntimeInfo>,
}

impl HashValidator {
    /// The target runtime compatibility is checked against.
    pub closed spec fn runtime_target(&self) -> Option<RuntimeInfo> {
        self.target
    }

    /// A validator without a target runtime.
    pub fn new() -> (r: Self)
        ensures
            r.runtime_target() is None,
    {
        HashValidator { target: None }
    }

    /// A validator that checks compatibility against `target`.
    pub fn with_target(target: RuntimeInfo) -> (r: Self)
        ensures
            r.runtime_target() == Some(target),
    {
        HashValidator { target: Some(target) }
    }

    /// Runs the validation pipeline on `artifact`. Individual step
    /// failures are recorded in the report, which is always returned.
    pub fn validate(&self, artifact: &ModelArtifact) -> (r: Result<ValidationReport, ArtifactError>)
        ensures
            r matches Ok(rep) && rep@ == validation_report(self.runtime_target(), *artifact),
    {
        let computed = blake3_hash(artifact.model_bytes.as_slice());
        if !digests_equal(&computed, &artifact.hash) {
            return Ok(failed_report(false, false, ArtifactError::HashMismatch));
        }
        if let Some(e) = check_schema(artifact) {
            return Ok(failed_report(true, false, e));
        }
        match &self.target {
            Some(t) => {
                if let Err(e) = compat_check(artifact, t) {
                    return Ok(failed_report(true, true, e));
                }
            },
            None => {
                if artifact.compatibility.runtime_version.as_str().unicode_len() == 0 {
                    return Ok(failed_report(true, true, ArtifactError::IncompatibleRuntime));
                }
            },
        }
        let integrity_ok = artifact.model_bytes.len() >= 4;
        let mut errors: Vec<ArtifactError> = Vec::new();
        if !integrity_ok {
            errors.push(ArtifactError::CorruptedArtifact);
        }
        let rep = ValidationReport {
            hash_ok: true,
            schema_ok: true,
            compatibility_ok: true,
            integrity_ok,
            errors,
        };
        assert(rep@.errors =~= integrity_report(*artifact).errors);
        Ok(rep)
    }

    /// Checks `artifact` against `target`: same runtime version, same
    /// architecture, and a supported format.
    pub fn check_compatibility(&self, artifact: &ModelArtifact, target: &RuntimeInfo) -> (r: Result<
        (),
        ArtifactError,
    >)
        ensures
            match r {
                Ok(()) => compat_error(*artifact, *target) is None,
                Err(e) => compat_error(*artifact, *target) == Some(e@),
            },
    {
        compat_check(artifact, target)
    }
}

/// The pipeline records at most one error: it stops at the first failing
/// step.
pub proof fn lemma_validation_stops_at_first_failure(target: Option<RuntimeInfo>, a: ModelArtifact)
    ensures
        validation_report(target, a).errors.len() <= 1,
        validation_report(target, a).errors.len() == 0 <==> (validation_report(target, a).hash_ok
            && validation_report(target, a).schema_ok && validation_report(
            target,
            a,
        ).compatibility_ok && validation_report(target, a).integrity_ok),
{
}

/// Against a target, an artifact passes validation exactly when its
/// bytes hash to its recorded digest, it declares features and tensor
/// inputs whose element counts fit in a `usize` and agree, its runtime
/// and architecture versions are the target's, the target supports its
/// format, and it has at least 4 bytes. So an artifact built for another
/// runtime or architecture, or in an unsupported format, never passes.
pub proof fn lemma_targeted_validation_accepts_exactly(t: RuntimeInfo, a: ModelArtifact)
    ensures
        validation_report(Some(t), a).errors.len() == 0 <==> {
            &&& blake3_digest(a.model_bytes@) == a.hash@
            &&& a.metadata.feature_schema.features@.len() > 0
            &&& a.compatibility.tensor_schema.input_shapes@.len() > 0
            &&& schema_counts_fit(a)
            &&& total_elements(artifact_feature_shapes(a)) == total_elements(
                artifact_input_shapes(a),
            )
            &&& a.compatibility.runtime_version@ == t.runtime_version@
            &&& a.compatibility.architecture_version@ == t.architecture_version@
            &&& t.supported_formats@.contains(a.format)
            &&& a.model_bytes@.len() >= 4
        },
{
}

/// Without a target, an artifact passes validation exactly when its
/// bytes hash to its recorded digest, it declares features and tensor
/// inputs whose element counts fit in a `usize` and agree, it declares a
/// runtime version, and it has at least 4 bytes.
pub proof fn lemma_untargeted_validation_accepts_exactly(a: ModelArtifact)
    ensures
        validation_report(None, a).errors.len() == 0 <==> {
            &&& blake3_digest(a.model_bytes@) == a.hash@
            &&& a.metadata.feature_schema.features@.len() > 0
            &&& a.compatibility.tensor_schema.input_shapes@.len() > 0
            &&& schema_counts_fit(a)
            &&& total_elements(artifact_feature_shapes(a)) == total_elements(
                artifact_input_shapes(a),
            )
            &&& a.compatibility.runtime_version@.len() > 0
            &&& a.model_bytes@.len() >= 4
        },
{
}

/// Once the digest and schema steps pass, the compatibility step against
/// a target decides as `check_compatibility` does for that artifact and
/// target: it passes exactly when `check_compatibility` succeeds, and
/// otherwise records exactly the error `check_compatibility` returns.
pub proof fn lemma_compat_step_is_check_compatibility(t: RuntimeInfo, a: ModelArtifact)
    requires
        blake3_digest(a.model_bytes@) == a.hash@,
        schema_error(a) is None,
    ensures
        validation_report(Some(t), a).compatibility_ok <==> compat_error(a, t) is None,
        compat_error(a, t) matches Some(e) ==> validation_report(Some(t), a).errors == seq![e],
{
}

/// The messages of `errs`, joined by `"; "`.
pub open spec fn joined_messages(errs: Seq<ArtifactErrorView>) -> Seq<char>
    decreases errs.len(),
{
    if errs.len() == 0 {
        Seq::empty()
    } else if errs.len() == 1 {
        artifact_error_message(errs[0])
    } else {
        joined_messages(errs.drop_last()) + "; "@ + artifact_error_message(errs.last())
    }
}

/// The messages of a report's errors, joined by `"; "`.
fn join_messages(errors: &Vec<ArtifactError>) -> (s: String)
    ensures
        s@ == joined_messages(errors@.map_values(|e: ArtifactError| e@)),
{
    let ghost views = errors@.map_values(|e: ArtifactError| e@);
    let n = errors.len();
    let mut s = String::from_str("");
    let mut i: usize = 0;
    proof {
        reveal_strlit("");
        assert(views.take(0) =~= Seq::<ArtifactErrorView>::empty());
    }
    while i < n
        invariant
            n == errors@.len(),
            views == errors@.map_values(|e: ArtifactError| e@),
            i <= n,
            s@ == joined_messages(views.take(i as int)),
        decreases n - i,
    {
        assert(views.take(i + 1).drop_last() =~= views.take(i as int));
        assert(views.take(i + 1).last() == errors@[i as int]@);
        if i > 0 {
            s.append("; ");
        }
        let m = errors[i].to_string();
        s.append(m.as_str());
        proof {
            if i == 0 {
                reveal_strlit("");
                assert(views.take(1)[0] == errors@[0]@);
                assert(s@ =~= joined_messages(views.take(1)));
            } else {
                reveal_strlit("; ");
            }
        }
        i += 1;
    }
    assert(views.take(n as int) =~= views);
    s
}

// ===========================================================================
// Loading and activation
// ===========================================================================

/// Loader acceptance and activation: an artifact is usable only when the
/// validation pipeline records no error.
#[derive(Debug, Clone)]
pub struct FileArtifactLoader {
    validator: HashValidator,
}

impl FileArtifactLoader {
    /// The target runtime of this loader's validator.
    pub closed spec fn runtime_target(&self) -> Option<RuntimeInfo> {
        self.validator.runtime_target()
    }

    /// A loader validating without a target runtime.
    pub fn new() -> (r: Self)
        ensures
            r.runtime_target() is None,
    {
        FileArtifactLoader { validator: HashValidator::new() }
    }

    /// A loader validating against `target`.
    pub fn with_target(target: RuntimeInfo) -> (r: Self)
        ensures
            r.runtime_target() == Some(target),
    {
        FileArtifactLoader { validator: HashValidator::with_target(target) }
    }

    /// Accepts a freshly decoded artifact: it is handed back when
    /// validation records no error, else refused with the joined messages.
    pub fn accept(&self, artifact: ModelArtifact) -> (r: Result<ModelArtifact, ArtifactError>)
        ensures
            ({
                let rep = validation_report(self.runtime_target(), artifact);
                if rep.errors.len() == 0 {
                    r == Ok::<ModelArtifact, ArtifactError>(artifact)
                } else {
                    r matches Err(e) && e@ == ArtifactErrorView::ValidationFailed(
                        joined_messages(rep.errors),
                    )
                }
            }),
    {
        let report = self.validator.validate(&artifact)?;
        if report.errors.len() > 0 {
            let m = join_messages(&report.errors);
            return Err(ArtifactError::ValidationFailed(m));
        }
        Ok(artifact)
    }

    /// Activates `artifact`: refused when its bytes are empty or when
    /// validation records an error; otherwise a handle naming the model.
    pub fn activate(&self, artifact: &ModelArtifact) -> (r: Result<ActivationHandle, ArtifactError>)
        ensures
            ({
                let rep = validation_report(self.runtime_target(), *artifact);
                if artifact.model_bytes@.len() == 0 {
                    r matches Err(e) && e@ == ArtifactErrorView::ActivationFailed(
                        "empty model bytes"@,
                    )
                } else if rep.errors.len() > 0 {
                    r matches Err(e) && e@ == ArtifactErrorView::ActivationFailed(
                        joined_messages(rep.errors),
                    )
                } else {
                    r matches Ok(h) && h.model_id == artifact.metadata.model_id
                        && h.activated_at.kind == TimestampKind::WallClock
                }
            }),
    {
        if artifact.model_bytes.len() == 0 {
            return Err(ArtifactError::ActivationFailed(String::from_str("empty model bytes")));
        }
        let report = self.validator.validate(artifact)?;
        if report.errors.len() > 0 {
            let m = join_messages(&report.errors);
            return Err(ArtifactError::ActivationFailed(m));
        }
        Ok(
            ActivationHandle {
                model_id: artifact.metadata.model_id.clone(),
                activated_at: Timestamp::now_wall_clock(),
            },
        )
    }
}

// ===========================================================================
// Writing
// ===========================================================================

/// Packages trained models into artifacts stamped with the producing
/// runtime and architecture versions.
#[derive(Debug, Clone)]
pub struct BincodeArtifactWriter {
    runtime_version: String,
    architecture_version: String,
}

/// `a` is what the writer with versions `rv` / `av` makes of `model` and
/// `metadata`: the model's bytes and format, their digest, the metadata,
/// one input and one output shape of the features' total element count,
/// `f32` elements, schema version 1.
pub open spec fn written_from(
    a: ModelArtifact,
    rv: Seq<char>,
    av: Seq<char>,
    model: TrainedModel,
    metadata: ArtifactMetadata,
) -> bool {
    let total = total_elements(feature_shapes(metadata.feature_schema.features@));
    &&& a.model_bytes@ == model.model_bytes@
    &&& a.format == model.format
    &&& a.hash@ == blake3_digest(model.model_bytes@)
    &&& same_metadata(a.metadata, metadata)
    &&& a.compatibility.runtime_version@ == rv
    &&& a.compatibility.architecture_version@ == av
    &&& shape_views(a.compatibility.tensor_schema.input_shapes@) == seq![seq![total as usize]]
    &&& shape_views(a.compatibility.tensor_schema.output_shapes@) == seq![seq![total as usize]]
    &&& a.compatibility.tensor_schema.dtype@ == "f32"@
    &&& a.schema_version == 1
}

impl BincodeArtifactWriter {
    /// The runtime version stamped on written artifacts.
    pub closed spec fn runtime_version_spec(&self) -> Seq<char> {
        self.runtime_version@
    }

    /// The architecture version stamped on written artifacts.
    pub closed spec fn architecture_version_spec(&self) -> Seq<char> {
        self.architecture_version@
    }

    /// A writer stamping the given runtime and architecture versions.
    pub fn new(runtime_version: &str, architecture_version: &str) -> (r: Self)
        ensures
            r.runtime_version_spec() == runtime_version@,
            r.architecture_version_spec() == architecture_version@,
    {
        BincodeArtifactWriter {
            runtime_version: String::from_str(runtime_version),
            architecture_version: String::from_str(architecture_version),
        }
    }

    /// Packages `model` with `metadata`; a model without bytes is refused
    /// as corrupted, features whose element count overflows a `usize` as
    /// a schema mismatch.
    pub fn write(&self, model: &TrainedModel, metadata: &ArtifactMetadata) -> (r: Result<
        ModelArtifact,
        ArtifactError,
    >)
        ensures
            model.model_bytes@.len() == 0 ==> r == Err::<ModelArtifact, ArtifactError>(
                ArtifactError::CorruptedArtifact,
            ),
            (model.model_bytes@.len() > 0 && !shapes_fit(
                feature_shapes(metadata.feature_schema.features@),
            )) ==> (r matches Err(e) && e@ == count_overflow_error()),
            (model.model_bytes@.len() > 0 && shapes_fit(
                feature_shapes(metadata.feature_schema.features@),
            )) ==> (r matches Ok(a) && written_from(
                a,
                self.runtime_version_spec(),
                self.architecture_version_spec(),
                *model,
                *metadata,
            )),
    {
        if model.model_bytes.len() == 0 {
            return Err(ArtifactError::CorruptedArtifact);
        }
        if !feature_shapes_fit(&metadata.feature_schema.features) {
            return Err(count_overflow());
        }
        let hash = blake3_hash(model.model_bytes.as_slice());
        let total = feature_elements_of(&metadata.feature_schema.features);
        let mut input_shape: Vec<usize> = Vec::new();
        input_shape.push(total);
        let mut input_shapes: Vec<Vec<usize>> = Vec::new();
        input_shapes.push(input_shape);
        let mut output_shape: Vec<usize> = Vec::new();
        output_shape.push(total);
        let mut output_shapes: Vec<Vec<usize>> = Vec::new();
        output_shapes.push(output_shape);
        let bytes = model.model_bytes.clone();
        assert(bytes@ =~= model.model_bytes@);
        let a = ModelArtifact {
            model_bytes: bytes,
            format: model.format,
            hash,
            metadata: metadata.clone(),
            compatibility: CompatibilityInfo {
                runtime_version: self.runtime_version.clone(),
                architecture_version: self.architecture_version.clone(),
                tensor_schema: TensorSchema {
                    input_shapes,
                    output_shapes,
                    dtype: String::from_str("f32"),
                },
            },
            schema_version: 1,
        };
        proof {
            reveal_strlit("f32");
            assert(shape_views(a.compatibility.tensor_schema.input_shapes@) =~= seq![
                seq![total],
            ]);
            assert(shape_views(a.compatibility.tensor_schema.output_shapes@) =~= seq![
                seq![total],
            ]);
        }
        Ok(a)
    }
}

/// Every shape counts at least one element, so a non-empty sequence of
/// shapes totals at least one.
proof fn lemma_total_positive(shapes: Seq<Seq<usize>>)
    requires
        shapes.len() > 0,
    ensures
        total_elements(shapes) >= 1,
    decreases shapes.len(),
{
    if shapes.len() > 1 {
        lemma_total_positive(shapes.drop_last());
    }
}

/// An artifact the writer produced passes validation against a target
/// that runs the writer's runtime and architecture versions and supports
/// the model's format, whenever the model has at least 4 bytes and the
/// metadata declares a feature.
pub proof fn lemma_written_artifact_validates(
    a: ModelArtifact,
    rv: Seq<char>,
    av: Seq<char>,
    model: TrainedModel,
    metadata: ArtifactMetadata,
    target: RuntimeInfo,
)
    requires
        written_from(a, rv, av, model, metadata),
        shapes_fit(feature_shapes(metadata.feature_schema.features@)),
        model.model_bytes@.len() >= 4,
        metadata.feature_schema.features@.len() > 0,
        target.runtime_version@ == rv,
        target.architecture_version@ == av,
        target.supported_formats@.contains(model.format),
    ensures
        validation_report(Some(target), a).errors.len() == 0,
{
    lemma_written_schema_matches(a, rv, av, model, metadata);
}

/// Without a target, an artifact the writer produced passes validation
/// whenever the writer's runtime version is not empty, the model has at
/// least 4 bytes and the metadata declares a feature.
pub proof fn lemma_written_artifact_validates_untargeted(
    a: ModelArtifact,
    rv: Seq<char>,
    av: Seq<char>,
    model: TrainedModel,
    metadata: ArtifactMetadata,
)
    requires
        written_from(a, rv, av, model, metadata),
        shapes_fit(feature_shapes(metadata.feature_schema.features@)),
        model.model_bytes@.len() >= 4,
        metadata.feature_schema.features@.len() > 0,
        rv.len() > 0,
    ensures
        validation_report(None, a).errors.len() == 0,
{
    lemma_written_schema_matches(a, rv, av, model, metadata);
}

/// A written artifact's hash and schema steps pass.
proof fn lemma_written_schema_matches(
    a: ModelArtifact,
    rv: Seq<char>,
    av: Seq<char>,
    model: TrainedModel,
    metadata: ArtifactMetadata,
)
    requires
        written_from(a, rv, av, model, metadata),
        shapes_fit(feature_shapes(metadata.feature_schema.features@)),
        metadata.feature_schema.features@.len() > 0,
    ensures
        blake3_digest(a.model_bytes@) == a.hash@,
        schema_error(a) is None,
{
    let fs = feature_shapes(metadata.feature_schema.features@);
    lemma_same_schema_shapes(a.metadata.feature_schema, metadata.feature_schema);
    lemma_total_positive(fs);
    let total = total_elements(fs);
    let ts = artifact_input_shapes(a);
    assert(ts == seq![seq![total as usize]]);
    assert(ts.drop_last() =~= Seq::<Seq<usize>>::empty());
    let single = seq![total as usize];
    assert(total <= usize::MAX);
    assert(single.drop_last() =~= Seq::<usize>::empty());
    assert(single.last() == total as usize);
    assert(shape_product(single.drop_last()) == 1);
    assert((total as usize) as nat == total);
    assert(shape_product(single) == shape_product(single.drop_last()) * (single.last() as nat));
    assert(shape_product(single) == total);
    assert(shape_elements(single) == total);
    assert(ts.last() == single);
    assert(total_elements(ts.drop_last()) == 0);
    assert(total_elements(ts) == total);
    assert forall|k: int| 0 <= k <= single.len() implies #[trigger] shape_product(single.take(k))
        <= usize::MAX by {
        if k == 0 {
            assert(single.take(k) =~= Seq::<usize>::empty());
        } else {
            assert(single.take(k) =~= single);
        }
    }
    assert(shape_fits(ts[0]));
    assert(shapes_fit(ts));
}


/// The lower-case hexadecimal text of the first 16 bytes of `bytes` (all
/// of them when fewer), as the artifact hash is displayed.
pub fn hex_first_16(bytes: &[u8]) -> (r: String)
    ensures
        r@ == hex_text(bytes@.take(if bytes@.len() < 16 {
            bytes@.len() as int
        } else {
            16
        })),
{
    let n = if bytes.len() < 16 {
        bytes.len()
    } else {
        16
    };
    let head = vstd::slice::slice_subrange(bytes, 0, n);
    assert(head@ =~= bytes@.take(n as int));
    hex_lower(head)
}

} // verus!
