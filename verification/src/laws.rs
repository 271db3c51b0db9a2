//! Laws of the two derivations, stated over the schema alone.

use vstd::prelude::*;

use crate::config::FriWitnessGeneratorConfig;
use crate::config::WitnessGenerationTimeouts;

verus! {

/// When no stage override is present, every stage resolves to the global
/// default: the derived bundle holds one and the same duration,
/// `generation_timeout_in_secs` seconds, for basic, leaf, node and scheduler.
pub proof fn lemma_no_overrides_uniform(config: FriWitnessGeneratorConfig)
    requires
        config.basic_generation_timeout_in_secs is None,
        config.leaf_generation_timeout_in_secs is None,
        config.node_generation_timeout_in_secs is None,
        config.scheduler_generation_timeout_in_secs is None,
    ensures
        config.spec_witness_generation_timeouts().basic.secs
            == config.generation_timeout_in_secs as u64,
        config.spec_witness_generation_timeouts().leaf
            == config.spec_witness_generation_timeouts().basic,
        config.spec_witness_generation_timeouts().node
            == config.spec_witness_generation_timeouts().basic,
        config.spec_witness_generation_timeouts().scheduler
            == config.spec_witness_generation_timeouts().basic,
{
}

/// A stage override, where present, decides that stage's resolved duration
/// by itself: the global default does not enter.
pub proof fn lemma_override_wins(config: FriWitnessGeneratorConfig)
    ensures
        config.basic_generation_timeout_in_secs is Some
            ==> config.spec_witness_generation_timeouts().basic.secs
            == config.basic_generation_timeout_in_secs.unwrap() as u64,
        config.leaf_generation_timeout_in_secs is Some
            ==> config.spec_witness_generation_timeouts().leaf.secs
            == config.leaf_generation_timeout_in_secs.unwrap() as u64,
        config.node_generation_timeout_in_secs is Some
            ==> config.spec_witness_generation_timeouts().node.secs
            == config.node_generation_timeout_in_secs.unwrap() as u64,
        config.scheduler_generation_timeout_in_secs is Some
            ==> config.spec_witness_generation_timeouts().scheduler.secs
            == config.scheduler_generation_timeout_in_secs.unwrap() as u64,
{
}

/// Both derivations are pure functions of the schema: any two results that
/// each satisfy a derivation's contract on the same immutable schema are
/// identical, so calling a derivation twice yields identical results.
pub proof fn lemma_derivations_deterministic(
    config: FriWitnessGeneratorConfig,
    timeouts_first: WitnessGenerationTimeouts,
    timeouts_second: WitnessGenerationTimeouts,
    bound_first: u32,
    bound_second: u32,
)
    requires
        timeouts_first == config.spec_witness_generation_timeouts(),
        timeouts_second == config.spec_witness_generation_timeouts(),
        bound_first == config.spec_last_l1_batch_to_process(),
        bound_second == config.spec_last_l1_batch_to_process(),
    ensures
        timeouts_first == timeouts_second,
        bound_first == bound_second,
{
}

} // verus!
