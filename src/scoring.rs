//! Peer-reputation constants for the gossip overlay.
//!
//! Weights, caps and thresholds are fixed-point numbers in units of one ten
//! millionth (`SCALE` units make 1.0). Decays are given as half-lives in
//! seconds: the per-tick decay factor is derived from the half-life where the
//! parameters are handed to the gossip framework, so that a contribution
//! halves once per half-life when nothing new happens.
use vstd::prelude::*;
use vstd::string::*;
use crate::topics::{block_base, block_topic, ident_topic_hash, msg_base, msg_topic, topic_spec};

verus! {

/// Fixed-point units that make 1.0.
pub const SCALE: i64 = 10_000_000;

/// Half-life of first-delivery rewards: ten minutes.
pub const FIRST_DELIVERY_HALF_LIFE_SECS: u64 = 600;

/// Half-life of invalid-delivery and behaviour penalties: one hour.
pub const PENALTY_HALF_LIFE_SECS: u64 = 3600;

/// How long a disconnected peer's score is kept: six hours.
pub const RETAIN_SCORE_SECS: u64 = 21600;

/// Score parameters of one gossip topic.
#[derive(Clone, Copy, Debug, PartialEq, Eq)]
pub struct TopicScoreParams {
    pub topic_weight: i64,
    pub time_in_mesh_weight: i64,
    pub time_in_mesh_quantum_secs: u64,
    pub time_in_mesh_cap: i64,
    pub first_message_deliveries_weight: i64,
    pub first_message_deliveries_half_life_secs: u64,
    pub first_message_deliveries_cap: i64,
    pub invalid_message_deliveries_weight: i64,
    pub invalid_message_deliveries_half_life_secs: u64,
}

/// Peer-level score parameters, with the per-topic parameters keyed by topic
/// hash.
#[derive(Clone, Debug)]
pub struct PeerScoreParams {
    pub app_specific_weight: i64,
    pub ip_colocation_factor_threshold: i64,
    pub ip_colocation_factor_weight: i64,
    pub behaviour_penalty_threshold: i64,
    pub behaviour_penalty_weight: i64,
    pub behaviour_penalty_half_life_secs: u64,
    pub retain_score_secs: u64,
    pub topics: Vec<(String, TopicScoreParams)>,
}

/// The gates on a peer's score.
#[derive(Clone, Copy, Debug, PartialEq, Eq)]
pub struct PeerScoreThresholds {
    pub gossip_threshold: i64,
    pub publish_threshold: i64,
    pub graylist_threshold: i64,
    pub accept_px_threshold: i64,
    pub opportunistic_graft_threshold: i64,
}

/// Parameters of the messages topic: about ten blocks a minute, mesh time
/// capped after an hour, deliveries decaying over ten minutes and capped at
/// 100, invalid deliveries decaying over an hour.
pub open spec fn msg_topic_params() -> TopicScoreParams {
    TopicScoreParams {
        topic_weight: 1_000_000,
        time_in_mesh_weight: 2_700,
        time_in_mesh_quantum_secs: 1,
        time_in_mesh_cap: 10_000_000,
        first_message_deliveries_weight: 50_000_000,
        first_message_deliveries_half_life_secs: 600,
        first_message_deliveries_cap: 1_000_000_000,
        invalid_message_deliveries_weight: (-10_000_000_000) as i64,
        invalid_message_deliveries_half_life_secs: 3600,
    }
}

/// Parameters of the blocks topic.
pub open spec fn block_topic_params() -> TopicScoreParams {
    TopicScoreParams {
        topic_weight: 1_000_000,
        time_in_mesh_weight: 2_778,
        time_in_mesh_quantum_secs: 1,
        time_in_mesh_cap: 10_000_000,
        first_message_deliveries_weight: 5_000_000,
        first_message_deliveries_half_life_secs: 600,
        first_message_deliveries_cap: 1_000_000_000,
        invalid_message_deliveries_weight: (-10_000_000_000) as i64,
        invalid_message_deliveries_half_life_secs: 3600,
    }
}

/// The built-in thresholds.
pub open spec fn default_thresholds() -> PeerScoreThresholds {
    PeerScoreThresholds {
        gossip_threshold: (-5_000_000_000) as i64,
        publish_threshold: (-10_000_000_000) as i64,
        graylist_threshold: (-25_000_000_000) as i64,
        accept_px_threshold: 10_000_000_000,
        opportunistic_graft_threshold: 35_000_000,
    }
}

/// The gates are ordered: graylist below publish below gossip below
/// opportunistic graft.
pub open spec fn thresholds_ordered(t: PeerScoreThresholds) -> bool {
    t.graylist_threshold < t.publish_threshold
        && t.publish_threshold < t.gossip_threshold
        && t.gossip_threshold < t.opportunistic_graft_threshold
}

/// Every half-life and quantum of a topic's parameters is positive and every
/// cap non-negative.
pub open spec fn topic_params_wf(p: TopicScoreParams) -> bool {
    p.time_in_mesh_quantum_secs > 0
        && p.first_message_deliveries_half_life_secs > 0
        && p.invalid_message_deliveries_half_life_secs > 0
        && p.time_in_mesh_cap >= 0
        && p.first_message_deliveries_cap >= 0
}

/// Score parameters of the messages topic.
pub fn build_msg_topic_config() -> (r: TopicScoreParams)
    ensures
        r == msg_topic_params(),
        topic_params_wf(r),
{
    TopicScoreParams {
        topic_weight: 1_000_000,
        time_in_mesh_weight: 2_700,
        time_in_mesh_quantum_secs: 1,
        time_in_mesh_cap: SCALE,
        first_message_deliveries_weight: 50_000_000,
        first_message_deliveries_half_life_secs: FIRST_DELIVERY_HALF_LIFE_SECS,
        first_message_deliveries_cap: 100 * SCALE,
        invalid_message_deliveries_weight: -1000 * SCALE,
        invalid_message_deliveries_half_life_secs: PENALTY_HALF_LIFE_SECS,
    }
}

/// Score parameters of the blocks topic.
pub fn build_block_topic_config() -> (r: TopicScoreParams)
    ensures
        r == block_topic_params(),
        topic_params_wf(r),
{
    TopicScoreParams {
        topic_weight: 1_000_000,
        time_in_mesh_weight: 2_778,
        time_in_mesh_quantum_secs: 1,
        time_in_mesh_cap: SCALE,
        first_message_deliveries_weight: 5_000_000,
        first_message_deliveries_half_life_secs: FIRST_DELIVERY_HALF_LIFE_SECS,
        first_message_deliveries_cap: 100 * SCALE,
        invalid_message_deliveries_weight: -1000 * SCALE,
        invalid_message_deliveries_half_life_secs: PENALTY_HALF_LIFE_SECS,
    }
}

/// Peer-level score parameters for a network. Topic-level scoring is off
/// unless `topic_scoring` is set: enabling it was seen to delay block
/// propagation by about a second. When it is on, the blocks and messages
/// topics of the network get their parameters, keyed by their hashes.
pub fn build_peer_score_params(network_name: &str, topic_scoring: bool) -> (r: PeerScoreParams)
    ensures
        r.app_specific_weight == SCALE,
        r.ip_colocation_factor_threshold == 5 * SCALE,
        r.ip_colocation_factor_weight == -100 * SCALE,
        r.behaviour_penalty_threshold == 6 * SCALE,
        r.behaviour_penalty_weight == -10 * SCALE,
        r.behaviour_penalty_half_life_secs == 3600,
        r.retain_score_secs == 21600,
        !topic_scoring ==> r.topics@.len() == 0,
        topic_scoring ==> r.topics@.len() == 2
            && r.topics@[0].0@ == topic_spec(block_base(), network_name@)
            && r.topics@[0].1 == block_topic_params()
            && r.topics@[1].0@ == topic_spec(msg_base(), network_name@)
            && r.topics@[1].1 == msg_topic_params()
            && r.topics@[0].0@ != r.topics@[1].0@,
{
    proof {
        crate::topics::lemma_topics_disjoint(network_name@, network_name@);
    }
    let mut topics: Vec<(String, TopicScoreParams)> = Vec::new();
    if topic_scoring {
        topics.push((ident_topic_hash(block_topic(network_name)), build_block_topic_config()));
        topics.push((ident_topic_hash(msg_topic(network_name)), build_msg_topic_config()));
    }
    PeerScoreParams {
        app_specific_weight: SCALE,
        ip_colocation_factor_threshold: 5 * SCALE,
        ip_colocation_factor_weight: -100 * SCALE,
        behaviour_penalty_threshold: 6 * SCALE,
        behaviour_penalty_weight: -10 * SCALE,
        behaviour_penalty_half_life_secs: PENALTY_HALF_LIFE_SECS,
        retain_score_secs: RETAIN_SCORE_SECS,
        topics,
    }
}

/// The built-in peer score thresholds.
pub fn build_peer_score_threshold() -> (r: PeerScoreThresholds)
    ensures
        r == default_thresholds(),
        thresholds_ordered(r),
{
    PeerScoreThresholds {
        gossip_threshold: -500 * SCALE,
        publish_threshold: -1000 * SCALE,
        graylist_threshold: -2500 * SCALE,
        accept_px_threshold: 1000 * SCALE,
        opportunistic_graft_threshold: 35 * SCALE / 10,
    }
}

/// The built-in thresholds are strictly ordered: graylist < publish < gossip
/// < opportunistic graft.
pub proof fn lemma_default_thresholds_ordered()
    ensures
        thresholds_ordered(default_thresholds()),
{
}

} // verus!
