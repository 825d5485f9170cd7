//! Flow control of outbound destinations.
//!
//! Rules are loaded into the flow-control engine of `sentinel-core`; a
//! connection is forwarded only when the engine admits an entry for its
//! destination's resource name.
use vstd::prelude::*;

verus! {

/// How the admitted amount of traffic is computed.
#[derive(Clone, Copy, Debug, PartialEq, Eq, Structural)]
pub enum CalculateStrategy {
    /// The threshold is used as it is.
    Direct,
    /// The threshold ramps up after a cold start.
    WarmUp,
}

/// What happens to traffic beyond the threshold.
#[derive(Clone, Copy, Debug, PartialEq, Eq, Structural)]
pub enum ControlStrategy {
    /// It is refused at once.
    Reject,
    /// It is queued and let through at an even pace.
    Throttling,
}

/// A flow rule: at most `threshold` entries per second for `resource`.
#[derive(Clone, Debug)]
pub struct FlowRule {
    pub resource: String,
    pub threshold: u32,
    pub calculate_strategy: CalculateStrategy,
    pub control_strategy: ControlStrategy,
}

/// The resource name of the built-in rule: the destination `1.1.1.1`.
pub open spec fn spec_hardcoded_resource() -> Seq<char> {
    seq!['1', '.', '1', '.', '1', '.', '1']
}

/// `sentinel_core::flow::load_rules`: replaces the engine's flow rules by
/// `rules` (each converted one for one into a `sentinel_core` rule with the
/// same resource, threshold and strategies, the other settings at their
/// defaults).  The returned flag tells whether the rules changed; it depends
/// on the engine's global state and on the fresh random id that each new
/// rule gets, and is left unsaid.
#[verifier::external_body]
fn load_flow_rules(rules: Vec<FlowRule>) -> (changed: bool) {
    sentinel_core::flow::load_rules(rules.into_iter().map(|r| std::sync::Arc::new(sentinel_core::flow::Rule {
        resource: r.resource,
        threshold: r.threshold.into(),
        calculate_strategy: match r.calculate_strategy {
            CalculateStrategy::Direct => sentinel_core::flow::CalculateStrategy::Direct,
            CalculateStrategy::WarmUp => sentinel_core::flow::CalculateStrategy::WarmUp,
        },
        control_strategy: match r.control_strategy {
            ControlStrategy::Reject => sentinel_core::flow::ControlStrategy::Reject,
            ControlStrategy::Throttling => sentinel_core::flow::ControlStrategy::Throttling,
        },
        ..Default::default()
    })).collect())
}

/// `sentinel_core::EntryBuilder::new(resource).build()`, reduced to whether
/// an entry was admitted.  The answer depends on the loaded rules and on the
/// traffic recorded so far (time and earlier entries), and is left unsaid.
#[verifier::external_body]
fn entry_admitted(resource: &str) -> (admitted: bool) {
    sentinel_core::EntryBuilder::new(resource.to_string()).build().is_ok()
}

/// The built-in rule set: `1.1.1.1` is limited to one entry per second,
/// counted directly and refused beyond the threshold.
pub fn hardcoded_rules() -> (rules: Vec<FlowRule>)
    ensures
        rules@.len() == 1,
        rules@[0].resource@ == spec_hardcoded_resource(),
        rules@[0].threshold == 1,
        rules@[0].calculate_strategy == CalculateStrategy::Direct,
        rules@[0].control_strategy == ControlStrategy::Reject,
{
    let resource = "1.1.1.1";
    proof {
        reveal_strlit("1.1.1.1");
    }
    assert(resource@ =~= spec_hardcoded_resource());
    let rule = FlowRule {
        resource: String::from_str(resource),
        threshold: 1,
        calculate_strategy: CalculateStrategy::Direct,
        control_strategy: ControlStrategy::Reject,
    };
    let mut rules: Vec<FlowRule> = Vec::new();
    rules.push(rule);
    rules
}

/// Loads the built-in rule set into the flow-control engine, replacing the
/// rules loaded before.
pub fn load_hardcoded_rules() {
    let _changed = load_flow_rules(hardcoded_rules());
}

/// Initializes flow control with the built-in rule set.
pub fn init_sentinel() {
    load_hardcoded_rules();
}

/// Whether flow control admits one more connection to `resource` now.  The
/// engine decides from its rules and the traffic it has recorded.
pub fn check_flow(resource: &str) -> (admitted: bool) {
    entry_admitted(resource)
}

} // verus!
