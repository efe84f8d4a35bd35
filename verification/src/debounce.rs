use vstd::prelude::*;

verus! {

/// Cool-down window of the tray activation debouncer, in milliseconds.
pub const DEBOUNCE_WINDOW_MS: u64 = 300;

/// Debouncer for tray-icon activation: a qualifying activation "fires"
/// (the caller then brings the main window to the front) and arms the
/// debouncer; any further activation within the cool-down window is
/// suppressed. The window expires by time alone, so the reset never blocks
/// the activation path.
///
/// Each decision is one call on `&mut self`, so a host that shares the
/// debouncer between execution contexts behind an atomic or a lock gets a
/// serialization of these single steps, and the laws below apply to every
/// interleaving.
#[derive(Clone, Copy, Debug)]
pub struct Debouncer {
    /// Length of the suppression window, in milliseconds.
    pub window_ms: u64,
    /// Whether an activation has been accepted and may still suppress.
    pub armed: bool,
    /// Time of the last accepted activation, in milliseconds; meaningful
    /// only while `armed`.
    pub armed_at: u64,
}

impl Debouncer {
    /// An activation at `now_ms` is suppressed while one accepted within
    /// the window precedes it.
    pub open spec fn suppressed(self, now_ms: u64) -> bool {
        self.armed && now_ms < self.armed_at + self.window_ms
    }

    /// A debouncer that will accept the next qualifying activation.
    pub fn new(window_ms: u64) -> (d: Self)
        ensures
            d == (Debouncer { window_ms, armed: false, armed_at: 0 }),
    {
        Debouncer { window_ms, armed: false, armed_at: 0 }
    }
}

/// The effect of one activation attempt at `now_ms`: whether it fires, and
/// the debouncer afterwards. A suppressed attempt leaves the debouncer as
/// it was (no queue; the pending window is not extended); a fired one
/// re-arms it at `now_ms`.
pub open spec fn spec_activate(d: Debouncer, now_ms: u64) -> (Debouncer, bool) {
    if d.suppressed(now_ms) {
        (d, false)
    } else {
        (Debouncer { armed: true, armed_at: now_ms, ..d }, true)
    }
}

impl Debouncer {
    /// Decides one tray activation at `now_ms` (milliseconds on a monotonic
    /// clock): returns whether the caller should act on it — show the main
    /// window and give it focus — and suppresses duplicates meanwhile.
    ///
    /// Time may not run backwards past the last accepted activation.
    pub fn handle_activation(&mut self, now_ms: u64) -> (fired: bool)
        requires
            old(self).armed ==> old(self).armed_at <= now_ms,
        ensures
            *final(self) == spec_activate(*old(self), now_ms).0,
            fired == spec_activate(*old(self), now_ms).1,
            fired == !old(self).suppressed(now_ms),
    {
        if self.armed && now_ms - self.armed_at < self.window_ms {
            false
        } else {
            self.armed = true;
            self.armed_at = now_ms;
            true
        }
    }
}

/// The outcome of a whole burst of activation attempts, in the order the
/// shared debouncer serialized them: the debouncer afterwards, and how many
/// attempts fired.
pub open spec fn spec_run(d: Debouncer, times: Seq<u64>) -> (Debouncer, nat)
    decreases times.len(),
{
    if times.len() == 0 {
        (d, 0)
    } else {
        let (d1, fired) = spec_activate(d, times.first());
        let (d2, count) = spec_run(d1, times.drop_first());
        (d2, count + if fired { 1nat } else { 0nat })
    }
}

/// Debounce law: once an activation has been accepted, every attempt in
/// the rest of its window is suppressed — whatever their number, order or
/// exact times, none fires and the debouncer is left unchanged. Activation
/// from several execution contexts is a serialization of single steps, so
/// within one window the window-show action runs at most once.
pub proof fn lemma_burst_within_window_never_fires(d: Debouncer, times: Seq<u64>)
    requires
        d.armed,
        forall|i: int|
            0 <= i < times.len() ==> d.armed_at <= #[trigger] times[i] < d.armed_at + d.window_ms,
    ensures
        spec_run(d, times).0 == d,
        spec_run(d, times).1 == 0,
    decreases times.len(),
{
    if times.len() > 0 {
        assert(d.suppressed(times.first()));
        lemma_burst_within_window_never_fires(d, times.drop_first());
    }
}

/// The two sides of the window, spelled out for a single pair of calls:
/// an attempt strictly inside the window of an accepted activation is
/// suppressed; one at or past its end fires again.
pub proof fn lemma_second_activation(d: Debouncer, t1: u64, t2: u64)
    requires
        !d.suppressed(t1),
        t1 <= t2,
    ensures
        t2 < t1 + d.window_ms ==> spec_activate(spec_activate(d, t1).0, t2).1 == false,
        t2 >= t1 + d.window_ms ==> spec_activate(spec_activate(d, t1).0, t2).1 == true,
{
}

} // verus!

