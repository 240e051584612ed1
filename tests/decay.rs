use forest_network::scoring::{FIRST_DELIVERY_HALF_LIFE_SECS, PENALTY_HALF_LIFE_SECS};
use libp2p::gossipsub::score_parameter_decay_with_base;
use std::time::Duration;

#[test]
fn half_life_halves_a_unit_score() {
    for &d in &[FIRST_DELIVERY_HALF_LIFE_SECS, PENALTY_HALF_LIFE_SECS] {
        let f = score_parameter_decay_with_base(Duration::from_secs(d), Duration::from_secs(1), 0.5);
        assert!(f > 0.0 && f < 1.0);
        let mut score = 1.0f64;
        let mut prev = score;
        for _ in 0..d {
            score *= f;
            assert!(score < prev);
            prev = score;
        }
        assert!((score - 0.5).abs() < 1e-9);
    }
}
