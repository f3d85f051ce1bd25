use rhdl::bits::bits;
use rhdl::strobe::{
    add_enabled, add_one, child_one, child_two, circuit, strobe, update_me, Clock, DemoQ, Strobe, StrobeI,
    StrobeQ,
};

#[test]
fn add_one_counts_and_wraps() {
    assert_eq!(add_one::<4>(bits(5)).raw(), 6);
    assert_eq!(add_one::<4>(bits(15)).raw(), 0);
    assert_eq!(add_one::<1>(bits(1)).raw(), 0);
}

#[test]
fn add_enabled_counts_only_when_enabled() {
    assert_eq!(add_enabled::<8>(true, bits(41)).raw(), 42);
    assert_eq!(add_enabled::<8>(false, bits(41)).raw(), 41);
    assert_eq!(add_enabled::<8>(true, bits(255)).raw(), 0);
}

#[test]
fn strobe_fires_at_the_threshold() {
    let clock = Clock { raw: true };
    let q = StrobeQ::<8> { threshold: bits(3), counter_1: bits(3), counter_2: bits(0) };
    let (fire, d) = strobe::<8>(StrobeI { clock, enable: true }, q);
    assert!(fire);
    assert!(d.counter_1.enable && d.counter_2.enable);
    assert_eq!(d.counter_1.clock, clock);
    assert_eq!(d.counter_2.clock, clock);

    let (fire, d) = strobe::<8>(StrobeI { clock, enable: false }, q);
    assert!(!fire);
    assert!(!d.counter_1.enable && !d.counter_2.enable);

    let below = StrobeQ::<8> { threshold: bits(3), counter_1: bits(2), counter_2: bits(0) };
    let (fire, _) = strobe::<8>(StrobeI { clock, enable: true }, below);
    assert!(!fire);
}

#[test]
fn strobe_keeps_its_threshold() {
    let s = Strobe::<8>::new(bits(100));
    assert_eq!(s.threshold().raw(), 100);
}

#[test]
fn demo_circuit_passes_its_input_through() {
    assert_eq!(child_one(bits(9)).raw(), 9);
    assert_eq!(child_two(bits(200)).raw(), 200);
    let (o, d) = update_me(bits(1), DemoQ { child_one: bits(7), child_two: bits(77) });
    assert_eq!(o.raw(), 1);
    assert_eq!(d.child_one.raw(), 7);
    assert_eq!(d.child_two.raw(), 77);
    assert_eq!(circuit(bits(0)).raw(), 0);
    assert_eq!(circuit(bits(1)).raw(), 1);
}

#[test]
fn zero_width_counters_when_disabled() {
    let count = rhdl::bits::Bits::<0>::zero();
    assert_eq!(add_enabled::<0>(false, count).raw(), 0);
    let q = StrobeQ::<0> { threshold: count, counter_1: count, counter_2: count };
    let (fire, d) = strobe::<0>(StrobeI { clock: Clock { raw: false }, enable: false }, q);
    assert!(!fire);
    assert!(!d.counter_1.enable);
}
