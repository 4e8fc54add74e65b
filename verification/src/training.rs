//! Training configuration vocabulary: trainer kinds, pruning and
//! sparsification strategies, the controller kinds of guidance and
//! control, and the trainer handle.
use vstd::prelude::*;

verus! {

/// Kind of model training.
#[derive(Debug, Clone, Copy, PartialEq, Eq, Hash, Structural)]
pub enum TrainerKind {
    /// Dense network training.
    Dense,
    /// Physics-informed network training.
    Pinn,
    /// Gradient-boosted trees.
    GradientBoosting,
    /// Fine tuning of an existing model.
    FineTuning,
}

/// Pruning strategy.
#[derive(Debug, Clone, Copy, PartialEq, Eq, Hash, Structural)]
pub enum PruningStrategy {
    /// Zero the smallest-magnitude weights.
    Magnitude,
    /// Remove whole channels or heads.
    Structured,
    /// Re-train the pruned mask from initialisation.
    LotteryTicket,
}

/// Sparsification strategy.
#[derive(Debug, Clone, Copy, PartialEq, Eq, Hash, Structural)]
pub enum SparsificationStrategy {
    /// Quantise weights to `bits`-bit integers.
    Quantization {
        /// Bit width of the quantised weights.
        bits: u8,
    },
    /// Distil into a smaller student model.
    Distillation,
}

/// The kind of controller guidance and control runs.
#[derive(Debug, Clone, Copy, PartialEq, Eq, Hash, Structural)]
pub enum ControllerKind {
    /// PID.
    Pid,
    /// LQRI.
    Lqri,
    /// Hybrid LQRI and PID.
    Hybrid,
}

/// A trainer of one kind.
#[derive(Debug, Clone, Copy, PartialEq, Eq, Structural)]
pub struct TchTrainer {
    kind: TrainerKind,
}

impl TchTrainer {
    /// The kind this trainer trains.
    pub closed spec fn trainer_kind(&self) -> TrainerKind {
        self.kind
    }

    /// A trainer of `kind`.
    pub fn new(kind: TrainerKind) -> (r: Self)
        ensures
            r.trainer_kind() == kind,
    {
        TchTrainer { kind }
    }

    /// The kind this trainer trains.
    pub fn kind(&self) -> (r: TrainerKind)
        ensures
            r == self.trainer_kind(),
    {
        self.kind
    }
}

} // verus!
