//! Shared schema types of training, artifacts and inference: model
//! formats, feature specifications and schemas, normalisation, validation
//! metrics and the trained model.
use vstd::prelude::*;

verus! {

/// Serialisation format of model bytes.
#[derive(Debug, Clone, Copy, PartialEq, Eq, Hash, Structural)]
pub enum ModelFormat {
    /// TorchScript.
    TorchScript,
    /// SafeTensors.
    SafeTensors,
    /// ONNX.
    Onnx,
}

/// Element type of a feature column.
#[derive(Debug, Clone, Copy, PartialEq, Eq, Hash, Structural)]
pub enum FeatureDType {
    /// 32-bit float.
    F32,
    /// 64-bit float.
    F64,
    /// 64-bit signed integer.
    I64,
    /// Boolean.
    Bool,
}

/// A named feature with its element type and shape.
#[derive(Debug, PartialEq, Eq)]
pub struct FeatureSpec {
    /// Feature name.
    pub name: String,
    /// Element type.
    pub dtype: FeatureDType,
    /// Shape; empty for a scalar.
    pub shape: Vec<usize>,
}

/// Normalisation applied to features.
#[derive(Debug, PartialEq, Eq)]
pub enum NormalizationSpec {
    /// No normalisation.
    Unnormalized,
    /// Zero mean, unit variance.
    Standard,
    /// Scaled to `[0, 1]`.
    MinMax,
    /// A named custom strategy.
    Custom(String),
}

/// Ordered feature specifications with their normalisation.
#[derive(Debug, PartialEq, Eq)]
pub struct FeatureSchema {
    /// The features, in order.
    pub features: Vec<FeatureSpec>,
    /// The normalisation applied.
    pub normalization: NormalizationSpec,
}

/// Metrics of the validation pass. Each metric is held as the IEEE-754
/// bit pattern of its `f64` value; `custom` is ordered by name, each name
/// once.
#[derive(Debug, PartialEq, Eq)]
pub struct ValidationMetrics {
    /// Bits of the validation loss.
    pub loss_bits: u64,
    /// Bits of the accuracy, where measured.
    pub accuracy_bits: Option<u64>,
    /// Named custom metrics, as bits.
    pub custom: Vec<(String, u64)>,
}

/// A trained model, ready to be packaged as an artifact.
#[derive(Debug, Clone, PartialEq, Eq)]
pub struct TrainedModel {
    /// Serialised model bytes.
    pub model_bytes: Vec<u8>,
    /// Their format.
    pub format: ModelFormat,
    /// The input feature schema.
    pub feature_schema: FeatureSchema,
    /// Metrics of the validation pass.
    pub validation_metrics: ValidationMetrics,
}


/// Two feature specifications agree: same name, type and shape.
pub open spec fn same_feature(a: FeatureSpec, b: FeatureSpec) -> bool {
    a.name == b.name && a.dtype == b.dtype && a.shape@ == b.shape@
}

/// Two feature schemas agree: pairwise agreeing features, same
/// normalisation.
pub open spec fn same_schema(a: FeatureSchema, b: FeatureSchema) -> bool {
    &&& a.features@.len() == b.features@.len()
    &&& forall|i: int|
        0 <= i < a.features@.len() ==> same_feature(#[trigger] a.features@[i], b.features@[i])
    &&& a.normalization == b.normalization
}

/// The shapes of a sequence of features, in order.
pub open spec fn feature_shapes(fs: Seq<FeatureSpec>) -> Seq<Seq<usize>> {
    fs.map_values(|f: FeatureSpec| f.shape@)
}

/// Agreeing schemas have the same feature shapes.
pub proof fn lemma_same_schema_shapes(a: FeatureSchema, b: FeatureSchema)
    requires
        same_schema(a, b),
    ensures
        feature_shapes(a.features@) == feature_shapes(b.features@),
{
    assert(feature_shapes(a.features@) =~= feature_shapes(b.features@)) by {
        assert forall|i: int| 0 <= i < a.features@.len() implies feature_shapes(a.features@)[i]
            == feature_shapes(b.features@)[i] by {
            assert(same_feature(a.features@[i], b.features@[i]));
        }
    }
}

impl Clone for FeatureSpec {
    fn clone(&self) -> (r: Self)
        ensures
            same_feature(r, *self),
    {
        let shape = self.shape.clone();
        assert(shape@ =~= self.shape@);
        FeatureSpec { name: self.name.clone(), dtype: self.dtype, shape }
    }
}

impl Clone for NormalizationSpec {
    fn clone(&self) -> (r: Self)
        ensures
            r == *self,
    {
        match self {
            NormalizationSpec::Unnormalized => NormalizationSpec::Unnormalized,
            NormalizationSpec::Standard => NormalizationSpec::Standard,
            NormalizationSpec::MinMax => NormalizationSpec::MinMax,
            NormalizationSpec::Custom(name) => NormalizationSpec::Custom(name.clone()),
        }
    }
}

impl Clone for FeatureSchema {
    fn clone(&self) -> (r: Self)
        ensures
            same_schema(r, *self),
    {
        let n = self.features.len();
        let mut features: Vec<FeatureSpec> = Vec::new();
        let mut i: usize = 0;
        while i < n
            invariant
                n == self.features@.len(),
                i <= n,
                features@.len() == i,
                forall|j: int|
                    0 <= j < i ==> same_feature(#[trigger] features@[j], self.features@[j]),
            decreases n - i,
        {
            features.push(self.features[i].clone());
            i += 1;
        }
        FeatureSchema { features, normalization: self.normalization.clone() }
    }
}

impl Clone for ValidationMetrics {
    fn clone(&self) -> (r: Self)
        ensures
            r.loss_bits == self.loss_bits,
            r.accuracy_bits == self.accuracy_bits,
            r.custom@ == self.custom@,
    {
        let n = self.custom.len();
        let mut custom: Vec<(String, u64)> = Vec::new();
        let mut i: usize = 0;
        while i < n
            invariant
                n == self.custom@.len(),
                i <= n,
                custom@ == self.custom@.take(i as int),
            decreases n - i,
        {
            let name = self.custom[i].0.clone();
            custom.push((name, self.custom[i].1));
            assert(self.custom@.take(i + 1) =~= self.custom@.take(i as int).push(self.custom@[i as int]));
            i += 1;
        }
        assert(self.custom@.take(n as int) =~= self.custom@);
        ValidationMetrics { loss_bits: self.loss_bits, accuracy_bits: self.accuracy_bits, custom }
    }
}

} // verus!
