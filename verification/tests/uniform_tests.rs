use pulsar::uniform::{pack_uniform, UniformFeed, UNIFORM_BYTES};

fn time_lane_of(payload: &[u8]) -> u32 {
    u32::from_le_bytes([payload[0], payload[1], payload[2], payload[3]])
}

#[test]
fn packed_layout_is_exact() {
    let p = pack_uniform(1, 2);
    assert_eq!(p.len(), UNIFORM_BYTES);
    assert_eq!(p, vec![1, 0, 0, 0, 2, 0, 0, 0, 0, 0, 0, 0, 0, 0, 0, 0]);
}

#[test]
fn packed_layout_matches_float_bit_patterns() {
    let time = 1.0f32.to_bits();
    let aspect = (800.0f32 / 600.0f32).to_bits();
    let p = pack_uniform(time, aspect);
    assert_eq!(&p[0..4], &1.0f32.to_le_bytes());
    assert_eq!(&p[4..8], &(800.0f32 / 600.0f32).to_le_bytes());
    assert_eq!(&p[8..16], &[0u8; 8]);
}

#[test]
fn feed_accepts_only_advancing_clock_words() {
    let mut feed = UniformFeed::new();
    assert!(feed.accepts_time(0));
    let _ = feed.write(5, 9);
    assert!(!feed.accepts_time(5));
    assert!(!feed.accepts_time(4));
    assert!(feed.accepts_time(6));
}

#[test]
fn consecutive_payload_time_lanes_strictly_increase() {
    let mut feed = UniformFeed::new();
    let mut last: Option<u32> = None;
    for i in 1..=50u32 {
        let word = (i as f32 * 0.25).to_bits();
        assert!(feed.accepts_time(word));
        let payload = feed.write(word, 0);
        let lane = time_lane_of(&payload);
        if let Some(prev) = last {
            assert!(lane > prev);
        }
        last = Some(lane);
    }
}
