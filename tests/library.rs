use granular_core::delay::DelayLine;
use granular_core::grains::GrainPool;
use granular_core::rng::Rng;
use granular_core::source::SourceBuffer;

#[test]
fn rng_first_draw_from_seed_one() {
    let mut r = Rng::new(1);
    assert_eq!(r.next_u32(), 270369);
}

#[test]
fn rng_zero_seed_acts_as_one() {
    let mut a = Rng::new(0);
    let mut b = Rng::new(1);
    for _ in 0..100 {
        let x = a.next_u32();
        assert_eq!(x, b.next_u32());
        assert_ne!(x, 0);
    }
}

#[test]
fn rng_same_seed_same_stream() {
    let mut a = Rng::new(12345);
    let mut b = Rng::new(12345);
    let xs: Vec<u32> = (0..1000).map(|_| a.next_u32()).collect();
    let ys: Vec<u32> = (0..1000).map(|_| b.next_u32()).collect();
    assert_eq!(xs, ys);
    let mut c = Rng::new(54321);
    assert_ne!(xs[0], c.next_u32());
}

#[test]
fn delay_new_line_is_silent() {
    let d: DelayLine<f32> = DelayLine::new_samples(5, 0.0);
    assert_eq!(d.capacity(), 5);
    for k in 0..=5 {
        assert_eq!(d.read_at(k), 0.0);
    }
}

#[test]
fn delay_round_trip_every_offset() {
    let cap = 7;
    for n in 1..=cap {
        let mut d: DelayLine<i32> = DelayLine::new_samples(cap, 0);
        for x in 0..3 {
            d.write(-x);
        }
        d.write(42);
        for x in 1..n {
            d.write(100 + x as i32);
        }
        assert_eq!(d.read_at(n), 42);
    }
}

#[test]
fn delay_offset_zero_is_oldest_slot() {
    let mut d: DelayLine<i32> = DelayLine::new_samples(3, 0);
    d.write(1);
    d.write(2);
    d.write(3);
    d.write(4);
    assert_eq!(d.read_at(1), 4);
    assert_eq!(d.read_at(2), 3);
    assert_eq!(d.read_at(3), 2);
    assert_eq!(d.read_at(0), 2);
}

#[test]
fn delay_span_gives_neighbouring_taps() {
    let mut d: DelayLine<f32> = DelayLine::new_samples(4, 0.0);
    for x in [1.0f32, 2.0, 3.0, 4.0, 5.0] {
        d.write(x);
    }
    assert_eq!(d.read_span(0), (5.0, 2.0));
    assert_eq!(d.read_span(1), (4.0, 5.0));
    assert_eq!(d.read_span(2), (3.0, 4.0));
    assert_eq!(d.read_span(3), (2.0, 3.0));
    // A fractional delay of 1.25 samples blends the taps at 1 and 2.
    // The read pointer's floor slot is the older tap; its fraction is 0.75.
    let (s_floor, s_ceil) = d.read_span(1);
    assert_eq!(s_floor + (s_ceil - s_floor) * 0.75, 4.75);
}

#[test]
fn delay_reset_zeroes_but_keeps_cursor() {
    let mut d: DelayLine<i32> = DelayLine::new_samples(3, 0);
    d.write(7);
    d.write(8);
    d.reset(0);
    for k in 0..=3 {
        assert_eq!(d.read_at(k), 0);
    }
    d.write(9);
    assert_eq!(d.read_at(1), 9);
    assert_eq!(d.capacity(), 3);
}

#[test]
fn delay_single_slot() {
    let mut d: DelayLine<i32> = DelayLine::new_samples(1, 0);
    d.write(5);
    assert_eq!(d.read_at(1), 5);
    assert_eq!(d.read_at(0), 5);
    assert_eq!(d.read_span(0), (5, 5));
}

#[test]
fn grain_lives_exactly_its_lifetime() {
    let mut p: GrainPool<u8> = GrainPool::with_capacity(4);
    assert!(p.is_empty());
    p.spawn(1, 3);
    assert_eq!(p.len(), 1);
    assert_eq!(p.get(0).age, 0);
    assert!(!p.advance(0));
    assert_eq!(p.get(0).age, 1);
    assert!(!p.advance(0));
    assert!(p.advance(0));
    assert!(p.is_empty());
}

#[test]
fn grain_removal_moves_last_into_slot() {
    let mut p: GrainPool<u8> = GrainPool::with_capacity(4);
    p.spawn(10, 1);
    p.spawn(20, 5);
    p.spawn(30, 5);
    assert!(p.advance(0));
    assert_eq!(p.len(), 2);
    assert_eq!(p.get(0).voice, 30);
    assert_eq!(p.get(0).age, 0);
    assert_eq!(p.get(1).voice, 20);
}

#[test]
fn grain_set_voice_keeps_age() {
    let mut p: GrainPool<u8> = GrainPool::with_capacity(0);
    p.spawn(1, 4);
    assert!(!p.advance(0));
    p.set_voice(0, 9);
    assert_eq!(p.get(0).voice, 9);
    assert_eq!(p.get(0).age, 1);
    assert_eq!(p.get(0).lifetime, 4);
}

#[test]
fn source_set_buffer_selects_whole() {
    let mut s: SourceBuffer<f32> = SourceBuffer::new();
    assert!(s.is_empty());
    assert_eq!(s.spawn_bounds(), None);
    s.set_buffer(vec![1.0; 48000]);
    assert_eq!(s.len(), 48000);
    assert_eq!(s.region_start(), 0);
    assert_eq!(s.region_end(), 48000);
    assert_eq!(s.spawn_bounds(), Some((0, 47999)));
}

#[test]
fn source_region_is_clamped() {
    let mut s: SourceBuffer<i32> = SourceBuffer::new();
    s.set_buffer(vec![0; 10]);
    s.set_region(3, 7);
    assert_eq!((s.region_start(), s.region_end()), (3, 7));
    assert_eq!(s.spawn_bounds(), Some((3, 6)));
    s.set_region(4, 100);
    assert_eq!((s.region_start(), s.region_end()), (4, 10));
    s.set_region(8, 2);
    assert_eq!((s.region_start(), s.region_end()), (8, 8));
    assert_eq!(s.spawn_bounds(), None);
    s.set_region(50, 60);
    assert_eq!((s.region_start(), s.region_end()), (10, 10));
    s.set_region(0, 0);
    assert_eq!(s.spawn_bounds(), None);
}

#[test]
fn source_region_untouched_without_samples() {
    let mut s: SourceBuffer<i32> = SourceBuffer::new();
    s.set_region(3, 7);
    assert_eq!((s.region_start(), s.region_end()), (0, 0));
}

#[test]
fn source_replacing_buffer_resets_region() {
    let mut s: SourceBuffer<i32> = SourceBuffer::new();
    s.set_buffer(vec![0; 10]);
    s.set_region(2, 5);
    s.set_buffer(vec![1; 4]);
    assert_eq!((s.region_start(), s.region_end()), (0, 4));
}

#[test]
fn source_pair_at_bounds() {
    let mut s: SourceBuffer<i32> = SourceBuffer::new();
    assert_eq!(s.pair_at(0), None);
    s.set_buffer(vec![5, 6, 7]);
    assert_eq!(s.pair_at(0), Some((5, 6)));
    assert_eq!(s.pair_at(1), Some((6, 7)));
    assert_eq!(s.pair_at(2), None);
    assert_eq!(s.pair_at(usize::MAX), None);
}
