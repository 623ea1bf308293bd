use deep_filter_plugin::channels::{broadcast, copy_samples};
use deep_filter_plugin::rate::sample_rate_supported;
use deep_filter_plugin::reframer::Reframer;
use deep_filter_plugin::session::{InitError, Session, DEFAULT_HOP_SIZE};

const RATE: u64 = 48_000_000;

/// Runs every whole hop through `engine` and returns what the host gets back
/// for a block of `n` samples, if anything.
fn run_block(
    s: &mut Session<f32>,
    mono: &[f32],
    engine: &mut dyn FnMut(&[f32]) -> Option<Vec<f32>>,
) -> Option<Vec<f32>> {
    if !s.begin_block(mono) {
        return None;
    }
    while s.next_hop() {
        let out = engine(s.pending_hop().unwrap());
        s.finish_hop(out.as_deref());
    }
    s.take_output(mono.len())
}

fn ready_session(hop: usize, channels: usize) -> Session<f32> {
    let mut s = Session::new();
    assert_eq!(s.initialize(RATE, channels, Some(hop)), Ok(hop));
    s
}

fn ramp(start: usize, n: usize) -> Vec<f32> {
    (start..start + n).map(|i| i as f32).collect()
}

#[test]
fn new_session_passes_through() {
    let mut s: Session<f32> = Session::new();
    assert!(!s.ready());
    assert_eq!(s.hop_size(), DEFAULT_HOP_SIZE);
    assert!(!s.begin_block(&[1.0, 2.0]));
    assert_eq!(s.input_len(), 0);
    assert!(!s.next_hop());
    assert_eq!(s.take_output(0), None);
}

#[test]
fn sample_rate_tolerance() {
    assert!(sample_rate_supported(48_000_000));
    assert!(sample_rate_supported(47_999_000));
    assert!(sample_rate_supported(48_001_000));
    assert!(!sample_rate_supported(48_001_001));
    assert!(!sample_rate_supported(47_998_999));
    assert!(!sample_rate_supported(44_100_000));
    assert!(!sample_rate_supported(0));
    assert!(!sample_rate_supported(u64::MAX));
}

#[test]
fn initialize_reports_hop_size() {
    let mut s: Session<f32> = Session::new();
    assert_eq!(s.initialize(RATE, 2, Some(4)), Ok(4));
    assert!(s.ready());
    assert_eq!(s.hop_size(), 4);
    assert_eq!(s.channels(), 2);
    assert_eq!(s.input_len(), 0);
    assert_eq!(s.output_len(), 0);
}

#[test]
fn initialize_rejects_wrong_rate_and_stays_dry() {
    let mut s = ready_session(4, 1);
    let mut identity = |h: &[f32]| Some(h.to_vec());
    run_block(&mut s, &ramp(0, 6), &mut identity);
    assert_eq!(s.initialize(44_100_000, 1, Some(4)), Err(InitError::UnsupportedSampleRate));
    assert!(!s.ready());
    assert_eq!(s.input_len(), 0);
    assert_eq!(s.output_len(), 0);
    for _ in 0..3 {
        assert_eq!(run_block(&mut s, &ramp(0, 8), &mut identity), None);
        assert_eq!(s.input_len(), 0);
        assert_eq!(s.output_len(), 0);
    }
    assert_eq!(s.initialize(48_000_500, 1, Some(4)), Ok(4));
    assert!(s.ready());
}

#[test]
fn initialize_engine_failure() {
    let mut s: Session<f32> = Session::new();
    assert_eq!(s.initialize(RATE, 1, None), Err(InitError::EngineConstruction));
    assert!(!s.ready());
    assert_eq!(s.initialize(RATE, 1, Some(0)), Err(InitError::EngineConstruction));
    assert!(!s.ready());
    assert_eq!(s.initialize(1, 1, None), Err(InitError::UnsupportedSampleRate));
}

#[test]
fn conservation_over_uneven_blocks() {
    let mut s = ready_session(4, 1);
    let mut identity = |h: &[f32]| Some(h.to_vec());
    let mut fed = 0usize;
    let mut drained = 0usize;
    for n in [3usize, 5, 2, 7, 3] {
        if let Some(out) = run_block(&mut s, &ramp(fed, n), &mut identity) {
            drained += out.len();
        }
        fed += n;
    }
    assert_eq!(fed, 20);
    assert_eq!(s.input_len(), 0);
    assert_eq!(drained + s.output_len(), fed);
}

#[test]
fn output_keeps_order() {
    let mut s = ready_session(4, 1);
    let mut identity = |h: &[f32]| Some(h.to_vec());
    assert_eq!(run_block(&mut s, &ramp(0, 3), &mut identity), None);
    assert_eq!(run_block(&mut s, &ramp(3, 5), &mut identity), Some(ramp(0, 5)));
    assert_eq!(s.output_len(), 3);
    assert_eq!(run_block(&mut s, &ramp(8, 3), &mut identity), Some(ramp(5, 3)));
}

#[test]
fn failed_hop_is_bypassed() {
    let mut s = ready_session(4, 1);
    let mut calls = 0usize;
    let mut flaky = |h: &[f32]| {
        calls += 1;
        if calls == 2 {
            None
        } else {
            Some(h.iter().map(|x| x * 0.5).collect())
        }
    };
    let input = ramp(1, 12);
    let out = run_block(&mut s, &input, &mut flaky).unwrap();
    assert_eq!(&out[0..4], &[0.5, 1.0, 1.5, 2.0]);
    assert_eq!(&out[4..8], &input[4..8]);
    assert_eq!(&out[8..12], &[4.5, 5.0, 5.5, 6.0]);
}

#[test]
fn wrong_length_answer_is_bypassed() {
    let mut s = ready_session(4, 1);
    let mut short = |_: &[f32]| Some(vec![9.0, 9.0]);
    let input = ramp(1, 4);
    assert_eq!(run_block(&mut s, &input, &mut short), Some(input.clone()));
}

#[test]
fn underrun_on_fresh_session() {
    let mut s = ready_session(4, 2);
    let mut identity = |h: &[f32]| Some(h.to_vec());
    assert_eq!(run_block(&mut s, &ramp(0, 6), &mut identity), None);
    assert_eq!(s.input_len(), 2);
    assert_eq!(s.output_len(), 4);
}

#[test]
fn reset_returns_to_cold_start() {
    let mut s = ready_session(4, 2);
    let mut identity = |h: &[f32]| Some(h.to_vec());
    run_block(&mut s, &ramp(0, 6), &mut identity);
    run_block(&mut s, &ramp(6, 3), &mut identity);
    assert!(s.input_len() > 0 || s.output_len() > 0);
    s.reset();
    assert_eq!(s.input_len(), 0);
    assert_eq!(s.output_len(), 0);
    assert_eq!(s.hop_size(), 4);
    assert_eq!(s.channels(), 2);
    assert!(s.ready());
    let mut cold = ready_session(4, 2);
    for (start, n) in [(100usize, 6usize), (106, 3), (109, 7)] {
        let a = run_block(&mut s, &ramp(start, n), &mut identity);
        let b = run_block(&mut cold, &ramp(start, n), &mut identity);
        assert_eq!(a, b);
        assert_eq!(s.input_len(), cold.input_len());
        assert_eq!(s.output_len(), cold.output_len());
    }
    s.reset();
    s.reset();
    assert_eq!(s.input_len(), 0);
}

#[test]
fn pending_hop_round_trip() {
    let mut s = ready_session(2, 1);
    assert!(s.pending_hop().is_none());
    assert!(s.begin_block(&[1.0, 2.0, 3.0]));
    assert!(s.next_hop());
    assert_eq!(s.pending_hop(), Some(&[1.0f32, 2.0][..]));
    assert!(!s.next_hop());
    assert_eq!(s.input_len(), 1);
    s.finish_hop(Some(&[7.0, 8.0]));
    assert!(s.pending_hop().is_none());
    assert_eq!(s.output_len(), 2);
    s.finish_hop(Some(&[5.0, 5.0]));
    assert_eq!(s.output_len(), 2);
    assert_eq!(s.take_output(2), Some(vec![7.0, 8.0]));
}

#[test]
fn broadcast_gives_identical_channels() {
    let mono = [0.25f32, -0.5, 1.0];
    let up = broadcast(&mono, 2);
    assert_eq!(up.len(), 2);
    assert_eq!(up[0], mono.to_vec());
    assert_eq!(up[1], mono.to_vec());
    assert_eq!(broadcast(&mono, 1), vec![mono.to_vec()]);
    assert!(broadcast::<f32>(&[], 2).iter().all(|c| c.is_empty()));
    assert_eq!(copy_samples(&mono), mono.to_vec());
}

#[test]
fn reframer_slices_hops_in_order() {
    let mut r: Reframer<i32> = Reframer::new(3);
    assert_eq!(r.hop_size(), 3);
    r.enqueue_input(&[1, 2]);
    assert!(!r.hop_ready());
    r.enqueue_input(&[3, 4, 5, 6, 7]);
    assert!(r.hop_ready());
    assert_eq!(r.take_hop(), vec![1, 2, 3]);
    assert_eq!(r.take_hop(), vec![4, 5, 6]);
    assert!(!r.hop_ready());
    assert_eq!(r.input_len(), 1);
}

#[test]
fn reframer_drains_only_when_enough() {
    let mut r: Reframer<i32> = Reframer::new(2);
    r.enqueue_output(&[1, 2, 3]);
    assert_eq!(r.drain_output(4), None);
    assert_eq!(r.output_len(), 3);
    assert_eq!(r.drain_output(2), Some(vec![1, 2]));
    assert_eq!(r.drain_output(0), Some(vec![]));
    assert_eq!(r.drain_output(1), Some(vec![3]));
    assert_eq!(r.output_len(), 0);
    r.enqueue_input(&[5]);
    r.clear();
    assert_eq!(r.input_len(), 0);
    assert_eq!(r.hop_size(), 2);
}
