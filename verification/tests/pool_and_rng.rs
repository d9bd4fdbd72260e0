use neural_runtime::rng::draw_raw;
use neural_runtime::runtime::NeuralRuntime;
use neural_runtime::runtime::create_neural_runtime;
use neural_runtime::runtime::check_simd_support;

/// An independent rendering of the documented generator: the wrapping
/// multiply-and-add seed derivation followed by the three-step xorshift.
fn reference_draw(counter: u32) -> u64 {
    let mut x = (counter as u64)
        .wrapping_mul(6364136223846793005)
        .wrapping_add(1442695040888963407);
    x ^= x << 13;
    x ^= x >> 7;
    x ^= x << 17;
    x
}

/// The host-side mapping of a raw word into the unit interval.
fn unit_of(raw: u64) -> f32 {
    (raw as f32) / (u64::MAX as f32)
}

#[test]
fn raw_draws_match_the_documented_formula() {
    for counter in [0u32, 1, 2, 41, 42, 9999, u32::MAX] {
        assert_eq!(draw_raw(counter), reference_draw(counter));
    }
}

#[test]
fn sessions_with_equal_counters_draw_identically() {
    let mut a = NeuralRuntime::new();
    let mut b = create_neural_runtime();
    let v = vec![0u32; 6];
    for _ in 0..5 {
        assert_eq!(a.get_operations_count(), b.get_operations_count());
        assert_eq!(a.pseudo_random_raw(), b.pseudo_random_raw());
        assert_eq!(a.optimize_connections(&v), b.optimize_connections(&v));
    }
}

#[test]
fn optimize_draws_one_word_per_connection() {
    let mut rt = NeuralRuntime::new();
    let v: Vec<u32> = (0..7).map(|i| (i as f32 * 0.1).to_bits()).collect();
    let draws = rt.optimize_connections(&v);
    assert_eq!(draws.len(), 7);
    assert_eq!(rt.get_operations_count(), 1);
    // The counter does not move between the draws of one call, so each
    // element's draw is the word at the incremented counter.
    for &d in &draws {
        assert_eq!(d, reference_draw(1));
    }
    // The next call draws a different word.
    let later = rt.optimize_connections(&v);
    assert_eq!(later[0], reference_draw(2));
    assert_ne!(draws[0], later[0]);
}

#[test]
fn jittered_connections_stay_in_the_unit_interval() {
    let mut rt = NeuralRuntime::new();
    let weights = [0.0f32, 0.01, 0.5, 0.99, 1.0, -3.0, 250.0];
    let v: Vec<u32> = weights.iter().map(|w| w.to_bits()).collect();
    for _ in 0..20 {
        let draws = rt.optimize_connections(&v);
        for (&w, &d) in weights.iter().zip(draws.iter()) {
            let unit = unit_of(d);
            assert!((0.0..=1.0).contains(&unit));
            let out = (w + (unit - 0.5) * 0.1).clamp(0.0, 1.0);
            assert!((0.0..=1.0).contains(&out));
        }
    }
}

#[test]
fn fresh_session_reports_its_initial_capacity() {
    let rt = NeuralRuntime::new();
    assert_eq!(rt.get_memory_usage(), 1048576 * 4);
    assert_eq!(rt.get_operations_count(), 0);
    assert!(rt.simd_supported());
    assert!(check_simd_support());
}

#[test]
fn allocation_is_reflected_in_usage() {
    let mut rt = NeuralRuntime::new();
    let before = rt.get_memory_usage();
    let ptr = rt.allocate_memory(400);
    assert_eq!(ptr, 0);
    assert_eq!(rt.get_memory_usage(), before + 400);
}

#[test]
fn allocations_hand_out_consecutive_byte_offsets() {
    let mut rt = NeuralRuntime::new();
    assert_eq!(rt.allocate_memory(400), 0);
    assert_eq!(rt.allocate_memory(100), 400);
    assert_eq!(rt.allocate_memory(8), 500);
    // A size below one element grows nothing.
    assert_eq!(rt.allocate_memory(3), 508);
    assert_eq!(rt.allocate_memory(4), 508);
}

#[test]
fn deallocation_saturates_at_zero() {
    let mut rt = NeuralRuntime::new();
    let baseline = rt.get_memory_usage();
    rt.allocate_memory(400);
    rt.deallocate_memory(1000);
    assert_eq!(rt.get_memory_usage(), baseline);
    rt.deallocate_memory(1000);
    assert_eq!(rt.get_memory_usage(), baseline);
}

#[test]
fn growth_beyond_the_initial_capacity_is_reported() {
    let mut rt = NeuralRuntime::new();
    // 1048576 elements fill the initial capacity exactly.
    assert_eq!(rt.allocate_memory(1048576 * 4), 0);
    assert_eq!(rt.get_memory_usage(), 2 * 1048576 * 4);
    // The next allocation must grow the capacity by what it needs.
    assert_eq!(rt.allocate_memory(400), 1048576 * 4);
    assert_eq!(rt.get_memory_usage(), 2 * 1048576 * 4 + 400 + 400);
}

#[test]
fn oversized_pool_is_released_on_deallocation() {
    let mut rt = NeuralRuntime::new();
    rt.allocate_memory((1048576 + 1) * 4);
    rt.deallocate_memory(0);
    // The logical length exceeded the reset limit: the buffer is cleared and
    // its capacity released, leaving only the recorded usage.
    assert_eq!(rt.get_memory_usage(), (1048576 + 1) * 4);
    assert_eq!(rt.allocate_memory(4), 0);
}

#[test]
fn reset_metrics_zeroes_the_counters_only() {
    let mut rt = NeuralRuntime::new();
    rt.allocate_memory(400);
    rt.optimize_connections(&vec![0u32; 3]);
    assert_eq!(rt.get_operations_count(), 1);
    rt.reset_metrics();
    assert_eq!(rt.get_operations_count(), 0);
    // The backing buffer keeps its capacity; only the recorded usage is gone.
    assert_eq!(rt.get_memory_usage(), 1048576 * 4);
    assert_eq!(rt.allocate_memory(4), 400);
}
