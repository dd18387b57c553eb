use cjemu::CyclePacer;

#[test]
fn hundred_ticks_at_a_thousand_per_second() {
    let mut pacer = CyclePacer::new(100, 1_000_000, 0);
    let mut now: u64 = 0;
    let mut ticks = 0;
    loop {
        now += 100_000;
        let step = pacer.poll(now);
        assert!(!step.nap);
        if step.tick {
            ticks += 1;
        }
        if step.finished {
            break;
        }
        assert!(now < 1_000_000_000);
    }
    assert_eq!(ticks, 100);
    assert_eq!(now, 100_000_000);
    assert_eq!(pacer.done(), 100);
    assert!(pacer.is_complete());
    let after = pacer.poll(now + 5_000_000);
    assert!(!after.tick);
    assert!(after.finished);
}

#[test]
fn tick_waits_for_a_full_interval() {
    let mut pacer = CyclePacer::new(3, 1_000, 500);
    assert!(!pacer.poll(1_499).tick);
    assert!(pacer.poll(1_500).tick);
    assert!(!pacer.poll(2_000).tick);
    assert_eq!(pacer.done(), 1);
}

#[test]
fn throughput_is_reported_each_second() {
    let mut pacer = CyclePacer::new(5_000, 1_000_000, 0);
    let mut reports = Vec::new();
    for ms in 1..=2_000u64 {
        if let Some(n) = pacer.poll(ms * 1_000_000).report {
            reports.push((ms, n));
        }
    }
    assert_eq!(reports, vec![(1_000, 999), (2_000, 1_000)]);
}

#[test]
fn slow_runs_nap_between_polls() {
    let mut pacer = CyclePacer::new(2, 20_000_000, 0);
    assert!(pacer.poll(1).nap);
    let mut fast = CyclePacer::new(2, 10_000_000, 0);
    assert!(!fast.poll(1).nap);
}

#[test]
fn empty_run_is_complete_at_once() {
    let mut pacer = CyclePacer::new(0, 1_000, 0);
    assert!(pacer.is_complete());
    let step = pacer.poll(10_000);
    assert!(step.finished);
    assert!(!step.tick);
    assert_eq!(step.report, None);
}
