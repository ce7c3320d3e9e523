//! Experiment configuration: the model and optimizer hyperparameter bundles
//! assembled once per training run and handed to the external trainer.
//!
//! The trainer and its tensor backend work in fractional coefficients; this
//! core states every coefficient exactly, as a whole number of billionths
//! (parts per thousand million), and the launch layer converts once at the
//! boundary.

use crate::data::Split;
use vstd::prelude::*;

verus! {

/// Default first-moment smoothing of the adaptive optimizer, in billionths
/// (nine tenths).
pub const DEFAULT_BETA_1_BILLIONTHS: u64 = 900_000_000;

/// Default second-moment smoothing of the adaptive optimizer, in
/// billionths (nine hundred ninety-nine thousandths).
pub const DEFAULT_BETA_2_BILLIONTHS: u64 = 999_000_000;

/// Default denominator guard of the adaptive optimizer, in billionths (one
/// hundred-thousandth).
pub const DEFAULT_EPSILON_BILLIONTHS: u64 = 10_000;

/// Weight-decay coefficient of the reference run, in billionths (five
/// hundred-thousandths).
pub const REFERENCE_WEIGHT_DECAY_BILLIONTHS: u64 = 50_000;

/// Hyperparameters of the transformer encoder model.
#[derive(Clone, Copy, Debug, PartialEq, Eq)]
pub struct ModelConfig {
    /// Size of the hidden/embedding vectors.
    pub embedding_size: usize,
    /// Size of the position-wise feed-forward layer.
    pub feed_forward_size: usize,
    /// Number of attention heads.
    pub num_heads: usize,
    /// Number of encoder layers.
    pub num_layers: usize,
    /// Whether normalization is applied before each sublayer rather than after.
    pub norm_first: bool,
}

impl ModelConfig {
    /// Builds a model configuration from the four sizes; normalization
    /// defaults to after the sublayer.
    pub fn new(
        embedding_size: usize,
        feed_forward_size: usize,
        num_heads: usize,
        num_layers: usize,
    ) -> (c: ModelConfig)
        ensures
            c.embedding_size == embedding_size,
            c.feed_forward_size == feed_forward_size,
            c.num_heads == num_heads,
            c.num_layers == num_layers,
            !c.norm_first,
    {
        ModelConfig { embedding_size, feed_forward_size, num_heads, num_layers, norm_first: false }
    }

    /// Returns the same configuration with the normalization placement set.
    pub fn with_norm_first(self, norm_first: bool) -> (c: ModelConfig)
        ensures
            c == (ModelConfig { norm_first, ..self }),
    {
        ModelConfig { norm_first, ..self }
    }
}

/// An optional penalty that shrinks weights each step.
#[derive(Clone, Copy, Debug, PartialEq, Eq)]
pub struct WeightDecayConfig {
    /// The decay coefficient, in billionths.
    pub penalty_billionths: u64,
}

impl WeightDecayConfig {
    /// Builds a weight-decay setting from its coefficient in billionths.
    pub fn new(penalty_billionths: u64) -> (c: WeightDecayConfig)
        ensures
            c.penalty_billionths == penalty_billionths,
    {
        WeightDecayConfig { penalty_billionths }
    }
}

/// Hyperparameters of the learning-rate-adaptive optimizer.
#[derive(Clone, Copy, Debug, PartialEq, Eq)]
pub struct AdamConfig {
    /// First-moment smoothing, in billionths.
    pub beta_1_billionths: u64,
    /// Second-moment smoothing, in billionths.
    pub beta_2_billionths: u64,
    /// Denominator guard, in billionths.
    pub epsilon_billionths: u64,
    /// Optional weight-decay penalty.
    pub weight_decay: Option<WeightDecayConfig>,
}

impl AdamConfig {
    /// Builds the optimizer configuration with its documented defaults and
    /// no weight decay.
    pub fn new() -> (c: AdamConfig)
        ensures
            c.beta_1_billionths == DEFAULT_BETA_1_BILLIONTHS,
            c.beta_2_billionths == DEFAULT_BETA_2_BILLIONTHS,
            c.epsilon_billionths == DEFAULT_EPSILON_BILLIONTHS,
            c.weight_decay is None,
    {
        AdamConfig {
            beta_1_billionths: DEFAULT_BETA_1_BILLIONTHS,
            beta_2_billionths: DEFAULT_BETA_2_BILLIONTHS,
            epsilon_billionths: DEFAULT_EPSILON_BILLIONTHS,
            weight_decay: None,
        }
    }

    /// Returns the same configuration with the weight-decay setting
    /// replaced.
    pub fn with_weight_decay(self, weight_decay: Option<WeightDecayConfig>) -> (c: AdamConfig)
        ensures
            c == (AdamConfig { weight_decay, ..self }),
    {
        AdamConfig { weight_decay, ..self }
    }
}

/// The bundle an experiment hands to the trainer: the model's and the
/// optimizer's hyperparameters. A pure value, built once per run, with no
/// failure path and nothing hidden beyond its two parts.
#[derive(Clone, Copy, Debug, PartialEq, Eq)]
pub struct ExperimentConfig {
    /// Hyperparameters of the model.
    pub model: ModelConfig,
    /// Hyperparameters of the optimizer.
    pub optimizer: AdamConfig,
}

impl ExperimentConfig {
    /// Bundles the model and optimizer configurations.
    pub fn new(model: ModelConfig, optimizer: AdamConfig) -> (c: ExperimentConfig)
        ensures
            c.model == model,
            c.optimizer == optimizer,
    {
        ExperimentConfig { model, optimizer }
    }
}

/// Law: experiment configuration is deterministic — two bundles built from
/// identical model and optimizer inputs agree in every exposed field; the
/// construction draws on nothing but its two arguments.
pub proof fn lemma_experiment_config_deterministic(a: ExperimentConfig, b: ExperimentConfig)
    requires
        a.model == b.model,
        a.optimizer == b.optimizer,
    ensures
        a == b,
{
}

/// The closed set of compute backends a build may select. Exactly one
/// variant is active per run; the choice is made at build time, never
/// renegotiated while running.
#[derive(Clone, Copy, Debug, PartialEq, Eq, Structural)]
pub enum BackendKind {
    /// The CPU array backend.
    CpuArray,
    /// The native-library CPU backend.
    NativeCpu,
    /// The native-library accelerator backend.
    NativeAccelerator,
    /// The portable GPU backend.
    PortableGpu,
}

/// The experiment configuration of the reference run: embedding size 256,
/// feed-forward size 1024, 8 heads, 4 layers, normalize-first enabled, and
/// the adaptive optimizer with the reference weight-decay coefficient.
pub open spec fn spec_reference_config() -> ExperimentConfig {
    ExperimentConfig {
        model: ModelConfig {
            embedding_size: 256,
            feed_forward_size: 1024,
            num_heads: 8,
            num_layers: 4,
            norm_first: true,
        },
        optimizer: AdamConfig {
            beta_1_billionths: DEFAULT_BETA_1_BILLIONTHS,
            beta_2_billionths: DEFAULT_BETA_2_BILLIONTHS,
            epsilon_billionths: DEFAULT_EPSILON_BILLIONTHS,
            weight_decay: Some(WeightDecayConfig { penalty_billionths: REFERENCE_WEIGHT_DECAY_BILLIONTHS }),
        },
    }
}

/// Builds the experiment configuration of the reference run.
pub fn reference_config() -> (c: ExperimentConfig)
    ensures
        c == spec_reference_config(),
{
    ExperimentConfig::new(
        ModelConfig::new(256, 1024, 8, 4).with_norm_first(true),
        AdamConfig::new().with_weight_decay(
            Some(WeightDecayConfig::new(REFERENCE_WEIGHT_DECAY_BILLIONTHS)),
        ),
    )
}

/// Where the trainer is to leave its artifacts (checkpoints and logs).
pub open spec fn spec_artifact_dir() -> Seq<char> {
    "/tmp/classifier-finetype"@
}

/// Returns the artifact directory of the reference run.
pub fn artifact_dir() -> (dir: &'static str)
    ensures
        dir@ == spec_artifact_dir(),
{
    "/tmp/classifier-finetype"
}

/// Everything the launch layer needs to hand to the trainer: the backend
/// to run on, the configuration bundle, which split feeds training and
/// which feeds testing, and where artifacts go.
pub struct LaunchPlan {
    /// The backend the run executes on.
    pub backend: BackendKind,
    /// The experiment configuration of the run.
    pub config: ExperimentConfig,
    /// The split that feeds training.
    pub train_split: Split,
    /// The split that feeds testing.
    pub test_split: Split,
    /// Where the trainer leaves its artifacts.
    pub artifact_dir: &'static str,
}

/// Assembles the launch plan of the reference run for the selected
/// backend: the reference configuration, the training and testing splits,
/// and the fixed artifact directory.
pub fn launch_plan(backend: BackendKind) -> (plan: LaunchPlan)
    ensures
        plan.backend == backend,
        plan.config == spec_reference_config(),
        plan.train_split == Split::Train,
        plan.test_split == Split::Test,
        plan.artifact_dir@ == spec_artifact_dir(),
{
    LaunchPlan {
        backend,
        config: reference_config(),
        train_split: Split::Train,
        test_split: Split::Test,
        artifact_dir: artifact_dir(),
    }
}

} // verus!
