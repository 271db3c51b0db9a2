//! Configuration for FRI witness generation: a passive schema record plus two
//! pure derivations (per-stage timeout resolution with fallback to a global
//! default, and a sentinel-substituted upper bound for batch processing).


mod config;
mod duration;
mod laws;

pub use config::DeserializationError;
pub use config::FriWitnessGeneratorConfig;
pub use config::WitnessGenerationTimeouts;
pub use config::resolved_secs;
pub use duration::Duration;
pub use laws::lemma_derivations_deterministic;
pub use laws::lemma_no_overrides_uniform;
pub use laws::lemma_override_wins;
