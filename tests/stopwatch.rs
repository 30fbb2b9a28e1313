use std::time::Duration;
use stopwatch::{start, Instant, Sw};

/// A clock whose instants are plain nanosecond readings; `now` always reads
/// one fixed value, and other instants are made by hand.
#[derive(Clone, Copy, Debug, PartialEq, Eq)]
struct Tick(u64);

const NOW: u64 = 1_000_000_000;

impl Instant for Tick {
    fn now() -> Self {
        Tick(NOW)
    }

    fn checked_add(&self, duration: Duration) -> Option<Self> {
        let n = u64::try_from(duration.as_nanos()).ok()?;
        self.0.checked_add(n).map(Tick)
    }

    fn checked_sub(&self, duration: Duration) -> Option<Self> {
        let n = u64::try_from(duration.as_nanos()).ok()?;
        self.0.checked_sub(n).map(Tick)
    }

    fn saturating_duration_since(&self, earlier: Self) -> Duration {
        Duration::from_nanos(self.0.saturating_sub(earlier.0))
    }
}

fn ms(n: u64) -> u64 {
    n * 1_000_000
}

#[test]
fn new_then_finish_is_zero() {
    let sw: Sw<Tick> = Sw::new();
    assert_eq!(sw.finish(), Duration::ZERO);
    let sw: Sw<quanta::Instant> = Sw::new();
    assert_eq!(sw.finish(), Duration::ZERO);
}

#[test]
fn default_is_stopped_and_empty() {
    let sw: Sw<Tick> = Sw::default();
    assert_eq!(sw.finish_at(Tick(NOW + ms(5))), Duration::ZERO);
}

#[test]
fn stop_without_start_does_nothing() {
    let mut sw: Sw<Tick> = Sw::new();
    sw.stop_at(Tick(ms(7)));
    sw.stop();
    assert_eq!(sw.finish(), Duration::ZERO);
}

#[test]
fn one_segment_is_measured() {
    let mut sw: Sw<Tick> = Sw::new();
    sw.start_at(Tick(ms(100)));
    sw.stop_at(Tick(ms(110)));
    assert_eq!(sw.finish(), Duration::from_millis(10));
}

#[test]
fn stop_twice_keeps_elapsed() {
    let mut sw: Sw<Tick> = Sw::new();
    sw.start_at(Tick(ms(100)));
    sw.stop_at(Tick(ms(130)));
    let after_first = sw.finish();
    sw.stop_at(Tick(ms(500)));
    let after_second = sw.finish();
    assert_eq!(after_first, Duration::from_millis(30));
    assert_eq!(after_second, after_first);
}

#[test]
fn restart_discards_running_segment() {
    let mut sw: Sw<Tick> = Sw::new();
    sw.start_at(Tick(ms(100)));
    sw.start_at(Tick(ms(150)));
    sw.stop_at(Tick(ms(160)));
    assert_eq!(sw.finish(), Duration::from_millis(10));
}

#[test]
fn start_reads_the_clock() {
    let mut sw: Sw<Tick> = Sw::new();
    sw.start_at(Tick(ms(1)));
    sw.start();
    assert_eq!(sw.finish_at(Tick(NOW + ms(3))), Duration::from_millis(3));
}

#[test]
fn two_cycles_accumulate() {
    let mut sw: Sw<Tick> = Sw::new();
    sw.start_at(Tick(ms(0)));
    sw.stop_at(Tick(ms(10)));
    sw.start_at(Tick(ms(20)));
    sw.stop_at(Tick(ms(35)));
    assert_eq!(sw.finish(), Duration::from_millis(25));
}

#[test]
fn finish_folds_in_running_segment() {
    let mut sw: Sw<Tick> = Sw::new();
    sw.start_at(Tick(ms(0)));
    sw.stop_at(Tick(ms(4)));
    sw.start_at(Tick(NOW - ms(6)));
    assert_eq!(sw.finish(), Duration::from_millis(10));
}

#[test]
fn reversed_instants_add_zero() {
    let mut sw: Sw<Tick> = Sw::new();
    sw.start_at(Tick(ms(0)));
    sw.stop_at(Tick(ms(2)));
    sw.start_at(Tick(ms(50)));
    sw.stop_at(Tick(ms(40)));
    assert_eq!(sw.finish(), Duration::from_millis(2));

    let mut sw: Sw<Tick> = Sw::new();
    sw.start_at(Tick(NOW + ms(1)));
    sw.stop();
    assert_eq!(sw.finish(), Duration::ZERO);
}

#[test]
fn elapsed_never_decreases_over_calls() {
    let mut sw: Sw<Tick> = Sw::new();
    let mut last = Duration::ZERO;
    let readings: [(u64, u64); 4] = [(0, 5), (9, 3), (20, 21), (30, 30)];
    for (begin, end) in readings {
        sw.start_at(Tick(ms(begin)));
        sw.stop_at(Tick(ms(end)));
        let now = sw.finish();
        assert!(now >= last);
        last = now;
    }
    assert_eq!(last, Duration::from_millis(6));
}

#[test]
fn started_then_finish_is_near_zero() {
    let sw = start();
    assert!(sw.finish() < Duration::from_secs(1));
}

#[test]
fn started_matches_new_then_start() {
    let mut sw: Sw<quanta::Instant> = Sw::new();
    sw.start();
    assert!(sw.finish() < Duration::from_secs(1));
}

#[test]
fn quanta_instant_shifts_and_measures() {
    let t = <quanta::Instant as Instant>::now();
    let later = Instant::checked_add(&t, Duration::from_millis(5)).unwrap();
    assert_eq!(
        Instant::saturating_duration_since(&later, t),
        Duration::from_millis(5)
    );
    assert_eq!(Instant::saturating_duration_since(&t, later), Duration::ZERO);
    let back = Instant::checked_sub(&later, Duration::from_millis(2)).unwrap();
    assert_eq!(
        Instant::saturating_duration_since(&back, t),
        Duration::from_millis(3)
    );
    assert!(Instant::checked_add(&t, Duration::MAX).is_none());
    assert!(Instant::checked_sub(&t, Duration::MAX).is_none());
}

#[test]
fn quanta_stopwatch_measures_a_shifted_segment() {
    let mut sw: Sw<quanta::Instant> = Sw::new();
    let t = <quanta::Instant as Instant>::now();
    sw.start_at(t);
    sw.stop_at(Instant::checked_add(&t, Duration::from_millis(15)).unwrap());
    assert_eq!(sw.finish(), Duration::from_millis(15));
}
