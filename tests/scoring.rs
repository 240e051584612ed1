use forest_network::scoring::{
    build_block_topic_config, build_msg_topic_config, build_peer_score_params,
    build_peer_score_threshold, SCALE,
};

#[test]
fn thresholds_are_ordered() {
    let t = build_peer_score_threshold();
    assert!(t.graylist_threshold < t.publish_threshold);
    assert!(t.publish_threshold < t.gossip_threshold);
    assert!(t.gossip_threshold < t.opportunistic_graft_threshold);
    assert_eq!(t.gossip_threshold, -500 * SCALE);
    assert_eq!(t.publish_threshold, -1000 * SCALE);
    assert_eq!(t.graylist_threshold, -2500 * SCALE);
    assert_eq!(t.accept_px_threshold, 1000 * SCALE);
    assert_eq!(t.opportunistic_graft_threshold, 35_000_000);
}

#[test]
fn topic_configs() {
    let m = build_msg_topic_config();
    assert_eq!(m.topic_weight, SCALE / 10);
    assert_eq!(m.time_in_mesh_weight, 2_700);
    assert_eq!(m.first_message_deliveries_weight, 5 * SCALE);
    assert_eq!(m.first_message_deliveries_half_life_secs, 600);
    assert_eq!(m.invalid_message_deliveries_half_life_secs, 3600);
    let b = build_block_topic_config();
    assert_eq!(b.time_in_mesh_weight, 2_778);
    assert_eq!(b.first_message_deliveries_weight, SCALE / 2);
    assert_eq!(b.first_message_deliveries_cap, 100 * SCALE);
    assert_eq!(b.invalid_message_deliveries_weight, -1000 * SCALE);
}

#[test]
fn peer_params_without_topic_scoring() {
    let p = build_peer_score_params("calibnet", false);
    assert!(p.topics.is_empty());
    assert_eq!(p.app_specific_weight, SCALE);
    assert_eq!(p.ip_colocation_factor_threshold, 5 * SCALE);
    assert_eq!(p.ip_colocation_factor_weight, -100 * SCALE);
    assert_eq!(p.behaviour_penalty_threshold, 6 * SCALE);
    assert_eq!(p.behaviour_penalty_weight, -10 * SCALE);
    assert_eq!(p.behaviour_penalty_half_life_secs, 3600);
    assert_eq!(p.retain_score_secs, 6 * 60 * 60);
}

#[test]
fn peer_params_with_topic_scoring() {
    let p = build_peer_score_params("calibnet", true);
    assert_eq!(p.topics.len(), 2);
    assert_eq!(p.topics[0].0, "/fil/blocks/calibnet");
    assert_eq!(p.topics[0].1, build_block_topic_config());
    assert_eq!(p.topics[1].0, "/fil/msgs/calibnet");
    assert_eq!(p.topics[1].1, build_msg_topic_config());
}
