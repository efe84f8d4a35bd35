use vexar::debounce::{Debouncer, DEBOUNCE_WINDOW_MS};
use vexar::events::{activation_qualifies, TrayButton, TrayInteraction};

#[test]
fn second_activation_within_window_is_suppressed() {
    let mut d = Debouncer::new(DEBOUNCE_WINDOW_MS);
    assert!(d.handle_activation(0));
    assert!(!d.handle_activation(100));
    assert!(d.handle_activation(350));
    // Two invocations in all, not three.
}

#[test]
fn window_closes_exactly_at_its_end() {
    let mut d = Debouncer::new(DEBOUNCE_WINDOW_MS);
    assert!(d.handle_activation(1000));
    assert!(!d.handle_activation(1299));
    assert!(d.handle_activation(1300));
}

#[test]
fn suppressed_attempts_do_not_extend_the_window() {
    let mut d = Debouncer::new(DEBOUNCE_WINDOW_MS);
    assert!(d.handle_activation(0));
    assert!(!d.handle_activation(299));
    // The window runs from the accepted activation, not the suppressed one.
    assert!(d.handle_activation(300));
}

#[test]
fn fresh_debouncer_accepts_an_activation_at_any_time() {
    let mut d = Debouncer::new(DEBOUNCE_WINDOW_MS);
    assert!(d.handle_activation(987654321));
}

/// Small deterministic linear-congruential generator for the stress trials.
struct Lcg(u64);

impl Lcg {
    fn next(&mut self) -> u64 {
        self.0 = self
            .0
            .wrapping_mul(6364136223846793005)
            .wrapping_add(1442695040888963407);
        self.0 >> 33
    }
}

#[test]
fn concurrent_burst_within_window_fires_at_most_once() {
    // A debouncer shared between execution contexts behind an atomic or a
    // lock serializes its single-step decisions, so every concurrent run
    // is equivalent to some ordering of the same attempts. The trials
    // below replay random interleavings of two contexts' attempts inside
    // one window.
    let mut rng = Lcg(0x5eed);
    for _ in 0..1000 {
        let mut d = Debouncer::new(DEBOUNCE_WINDOW_MS);
        let t0 = rng.next() % 1_000_000;
        let mut fired: u32 = 0;
        if d.handle_activation(t0) {
            fired += 1;
        }
        // Two contexts, each attempting a handful of activations at
        // arbitrary moments strictly inside the window, interleaved in
        // whatever order the serialization produced.
        let attempts = 2 + (rng.next() % 19) as usize;
        for _ in 0..attempts {
            let t = t0 + rng.next() % DEBOUNCE_WINDOW_MS;
            if d.handle_activation(t) {
                fired += 1;
            }
        }
        assert_eq!(fired, 1);
    }
}

#[test]
fn after_the_window_a_burst_fires_exactly_once_more() {
    let mut rng = Lcg(42);
    for _ in 0..1000 {
        let mut d = Debouncer::new(DEBOUNCE_WINDOW_MS);
        let t0 = rng.next() % 1_000_000;
        assert!(d.handle_activation(t0));
        let t1 = t0 + DEBOUNCE_WINDOW_MS + rng.next() % 50;
        let mut times: Vec<u64> = (0..10)
            .map(|_| t1 + rng.next() % (DEBOUNCE_WINDOW_MS - 50))
            .collect();
        times.sort();
        let mut fired: u32 = 0;
        for t in times {
            if d.handle_activation(t) {
                fired += 1;
            }
        }
        assert_eq!(fired, 1);
    }
}

#[test]
fn left_click_and_double_click_qualify_as_activation() {
    assert!(activation_qualifies(TrayInteraction::Click(TrayButton::Left)));
    assert!(activation_qualifies(TrayInteraction::DoubleClick));
    assert!(!activation_qualifies(TrayInteraction::Click(
        TrayButton::Right
    )));
    assert!(!activation_qualifies(TrayInteraction::Click(
        TrayButton::Middle
    )));
    assert!(!activation_qualifies(TrayInteraction::Other));
}
