//! The FRI witness-generator configuration schema and its derived values.
//!
//! `FriWitnessGeneratorConfig` is a passive record of what the external
//! configuration source supplied. Two pure derivations consume it:
//! per-stage timeout resolution ("specific override, else global default")
//! and a sentinel-substituted upper bound for batch processing.

use vstd::prelude::*;

use crate::duration::Duration;

verus! {

/// Construction of a `FriWitnessGeneratorConfig` failed: a mandatory field
/// was missing from the configuration source.
#[derive(Clone, Copy, Debug, PartialEq, Eq, Structural)]
pub struct DeserializationError;

/// Configuration for the FRI witness generation.
///
/// The record is immutable once constructed; the optional per-stage timeout
/// fields are resolved against the global default by
/// [`Self::witness_generation_timeouts`], never mutated in place.
#[derive(Clone, Debug, PartialEq)]
pub struct FriWitnessGeneratorConfig {
    /// Max time for witness to be generated.
    pub generation_timeout_in_secs: u16,
    pub basic_generation_timeout_in_secs: Option<u16>,
    pub leaf_generation_timeout_in_secs: Option<u16>,
    pub scheduler_generation_timeout_in_secs: Option<u16>,
    pub node_generation_timeout_in_secs: Option<u16>,
    /// Max attempts for generating witness.
    pub max_attempts: u32,
    /// Percentage of the blocks that gets proven, in the range [0, 100];
    /// 0 implies all blocks are skipped and 100 implies all blocks are proven.
    pub blocks_proving_percentage: Option<u8>,
    /// Block numbers for which diagnostic argument dumps are requested.
    pub dump_arguments_for_blocks: Vec<u32>,
    /// Optional L1 batch number to process blocks until (inclusive);
    /// absent means unbounded.
    pub last_l1_batch_to_process: Option<u32>,
    /// Force-process the block with this number when sampling is enabled.
    pub force_process_block: Option<u32>,
    /// Whether generated artifacts are additionally written to a public bucket.
    pub shall_save_to_public_bucket: bool,
}

/// Per-stage witness-generation timeouts, each resolved at construction time.
#[derive(Clone, Copy, Debug, PartialEq, Eq, Structural)]
pub struct WitnessGenerationTimeouts {
    pub basic: Duration,
    pub leaf: Duration,
    pub node: Duration,
    pub scheduler: Duration,
}

impl WitnessGenerationTimeouts {
    pub fn basic(&self) -> (r: Duration)
        ensures
            r == self.basic,
    {
        self.basic
    }

    pub fn leaf(&self) -> (r: Duration)
        ensures
            r == self.leaf,
    {
        self.leaf
    }

    pub fn node(&self) -> (r: Duration)
        ensures
            r == self.node,
    {
        self.node
    }

    pub fn scheduler(&self) -> (r: Duration)
        ensures
            r == self.scheduler,
    {
        self.scheduler
    }

    /// Bundles four per-stage second counts into durations.
    pub fn new(basic: u16, leaf: u16, node: u16, scheduler: u16) -> (r: Self)
        ensures
            r.basic.secs == basic as u64,
            r.leaf.secs == leaf as u64,
            r.node.secs == node as u64,
            r.scheduler.secs == scheduler as u64,
    {
        Self {
            basic: Duration::from_secs(basic as u64),
            leaf: Duration::from_secs(leaf as u64),
            node: Duration::from_secs(node as u64),
            scheduler: Duration::from_secs(scheduler as u64),
        }
    }
}

/// The stage's own timeout when an override is present, else the global default.
pub open spec fn resolved_secs(stage_override: Option<u16>, default_secs: u16) -> u16 {
    match stage_override {
        Some(secs) => secs,
        None => default_secs,
    }
}

impl FriWitnessGeneratorConfig {
    /// The timeout bundle that [`Self::witness_generation_timeouts`] derives:
    /// each stage resolves its own override against the global default.
    pub open spec fn spec_witness_generation_timeouts(self) -> WitnessGenerationTimeouts {
        WitnessGenerationTimeouts {
            basic: Duration {
                secs: resolved_secs(
                    self.basic_generation_timeout_in_secs,
                    self.generation_timeout_in_secs,
                ) as u64,
            },
            leaf: Duration {
                secs: resolved_secs(
                    self.leaf_generation_timeout_in_secs,
                    self.generation_timeout_in_secs,
                ) as u64,
            },
            node: Duration {
                secs: resolved_secs(
                    self.node_generation_timeout_in_secs,
                    self.generation_timeout_in_secs,
                ) as u64,
            },
            scheduler: Duration {
                secs: resolved_secs(
                    self.scheduler_generation_timeout_in_secs,
                    self.generation_timeout_in_secs,
                ) as u64,
            },
        }
    }

    /// The inclusive upper bound on batch numbers that
    /// [`Self::last_l1_batch_to_process`] returns: the configured bound when
    /// present, else `u32::MAX` as the "unbounded" sentinel.
    pub open spec fn spec_last_l1_batch_to_process(self) -> u32 {
        match self.last_l1_batch_to_process {
            Some(batch) => batch,
            None => u32::MAX,
        }
    }

    /// Builds the schema from the fields an external configuration source
    /// supplied, each `None` standing for a key the source did not hold.
    ///
    /// Construction succeeds exactly when every mandatory field
    /// (`generation_timeout_in_secs`, `max_attempts`,
    /// `dump_arguments_for_blocks`, `shall_save_to_public_bucket`) is
    /// present; a missing mandatory field fails with
    /// [`DeserializationError`] and no schema is produced. Optional fields
    /// pass through unchanged: a missing one is recorded as absent, never
    /// resolved here.
    pub fn from_parts(
        generation_timeout_in_secs: Option<u16>,
        basic_generation_timeout_in_secs: Option<u16>,
        leaf_generation_timeout_in_secs: Option<u16>,
        scheduler_generation_timeout_in_secs: Option<u16>,
        node_generation_timeout_in_secs: Option<u16>,
        max_attempts: Option<u32>,
        blocks_proving_percentage: Option<u8>,
        dump_arguments_for_blocks: Option<Vec<u32>>,
        last_l1_batch_to_process: Option<u32>,
        force_process_block: Option<u32>,
        shall_save_to_public_bucket: Option<bool>,
    ) -> (r: Result<Self, DeserializationError>)
        ensures
            r is Ok <==> (generation_timeout_in_secs is Some && max_attempts is Some
                && dump_arguments_for_blocks is Some && shall_save_to_public_bucket is Some),
            r is Ok ==> {
                let config = r.unwrap();
                &&& config.generation_timeout_in_secs == generation_timeout_in_secs.unwrap()
                &&& config.basic_generation_timeout_in_secs == basic_generation_timeout_in_secs
                &&& config.leaf_generation_timeout_in_secs == leaf_generation_timeout_in_secs
                &&& config.scheduler_generation_timeout_in_secs
                    == scheduler_generation_timeout_in_secs
                &&& config.node_generation_timeout_in_secs == node_generation_timeout_in_secs
                &&& config.max_attempts == max_attempts.unwrap()
                &&& config.blocks_proving_percentage == blocks_proving_percentage
                &&& config.dump_arguments_for_blocks@ == dump_arguments_for_blocks.unwrap()@
                &&& config.last_l1_batch_to_process == last_l1_batch_to_process
                &&& config.force_process_block == force_process_block
                &&& config.shall_save_to_public_bucket == shall_save_to_public_bucket.unwrap()
            },
            r is Err ==> r.unwrap_err() == DeserializationError,
    {
        match (
            generation_timeout_in_secs,
            max_attempts,
            dump_arguments_for_blocks,
            shall_save_to_public_bucket,
        ) {
            (Some(generation_timeout), Some(attempts), Some(dump_blocks), Some(save_public)) => Ok(
                Self {
                    generation_timeout_in_secs: generation_timeout,
                    basic_generation_timeout_in_secs,
                    leaf_generation_timeout_in_secs,
                    scheduler_generation_timeout_in_secs,
                    node_generation_timeout_in_secs,
                    max_attempts: attempts,
                    blocks_proving_percentage,
                    dump_arguments_for_blocks: dump_blocks,
                    last_l1_batch_to_process,
                    force_process_block,
                    shall_save_to_public_bucket: save_public,
                },
            ),
            _ => Err(DeserializationError),
        }
    }

    /// Resolves the four per-stage timeouts, falling back to the global
    /// default for every stage without an override of its own.
    pub fn witness_generation_timeouts(&self) -> (r: WitnessGenerationTimeouts)
        ensures
            r == self.spec_witness_generation_timeouts(),
    {
        WitnessGenerationTimeouts::new(
            self.basic_generation_timeout_in_secs
                .unwrap_or(self.generation_timeout_in_secs),
            self.leaf_generation_timeout_in_secs
                .unwrap_or(self.generation_timeout_in_secs),
            self.node_generation_timeout_in_secs
                .unwrap_or(self.generation_timeout_in_secs),
            self.scheduler_generation_timeout_in_secs
                .unwrap_or(self.generation_timeout_in_secs),
        )
    }

    /// The inclusive upper bound on batch numbers to process: the configured
    /// value when present, else `u32::MAX` as the "unbounded" sentinel, so
    /// that downstream loops can compare numerically without branching on
    /// optionality.
    pub fn last_l1_batch_to_process(&self) -> (r: u32)
        ensures
            r == self.spec_last_l1_batch_to_process(),
            self.last_l1_batch_to_process is Some ==> r == self.last_l1_batch_to_process.unwrap(),
            self.last_l1_batch_to_process is None ==> r == u32::MAX,
    {
        self.last_l1_batch_to_process.unwrap_or(u32::MAX)
    }
}

} // verus!
