use notifychecker::clock::{ClockTime, StopTime};
use notifychecker::monitor::{latency_ms, status_is_ok, Monitor, ProbeReport, RunState, TickDecision};
use notifychecker::store::Time;

fn at(hour: u8, minute: u8) -> ClockTime {
    ClockTime::new(hour, minute).unwrap()
}

fn up(ms: u64) -> ProbeReport {
    ProbeReport::from_status(Some(200), ms * 1_000_000)
}

fn down() -> ProbeReport {
    ProbeReport::from_status(Some(503), 0)
}

/// Drives one tick; returns the samples handed over for the file, if any,
/// and whether a probe was made.
fn tick(m: &mut Monitor, now: ClockTime, probe: ProbeReport) -> (Option<Vec<Time>>, bool) {
    match m.on_clock(now) {
        TickDecision::Probe => {
            m.on_probe(now, probe);
            (None, true)
        }
        TickDecision::Persist(v) => (Some(v), false),
        TickDecision::Halted => (None, false),
    }
}

#[test]
fn minute_by_minute_run_stops_at_stop_time() {
    let stop = StopTime::parse("10", "30").unwrap();
    let mut m = Monitor::new(stop);
    let mut probes = 0;
    let mut persisted: Vec<Vec<Time>> = Vec::new();
    let mut terminal_ticks = Vec::new();
    for minute in 0..=30u8 {
        let before = m.state();
        let (file, probed) = tick(&mut m, at(10, minute), up(100 + minute as u64));
        if probed {
            probes += 1;
        }
        if let Some(v) = file {
            persisted.push(v);
        }
        if before == RunState::Running && m.state() != RunState::Running {
            terminal_ticks.push(minute);
        }
        if minute == 30 {
            assert!(!probed);
        }
    }
    assert_eq!(m.state(), RunState::Succeeded);
    assert_eq!(terminal_ticks, vec![30]);
    assert_eq!(probes, 30);
    assert_eq!(persisted.len(), 1);
    let minutes: Vec<u8> = persisted[0].iter().map(|s| s.real_time.minute).collect();
    assert_eq!(minutes, vec![0, 5, 10, 15, 20, 25]);
    assert_eq!(persisted[0][1].response_time, 105);
    // Later ticks change nothing.
    let (file, probed) = tick(&mut m, at(10, 31), down());
    assert!(file.is_none() && !probed);
    assert_eq!(m.state(), RunState::Succeeded);
}

#[test]
fn third_probe_failing_ends_run() {
    let stop = StopTime::parse("23", "59").unwrap();
    let mut m = Monitor::new(stop);
    let probes = [up(10), up(10), down()];
    let mut ticks = 0;
    let mut written = false;
    for p in probes.iter() {
        if m.state() != RunState::Running {
            break;
        }
        let (file, _) = tick(&mut m, at(9, 0), *p);
        written |= file.is_some();
        ticks += 1;
    }
    assert_eq!(ticks, 3);
    assert_eq!(m.state(), RunState::Failed);
    assert!(!written);
    let (file, probed) = tick(&mut m, at(23, 59), up(1));
    assert!(file.is_none() && !probed);
    assert_eq!(m.state(), RunState::Failed);
}

#[test]
fn all_up_run_persists_samples_in_order() {
    let stop = StopTime::parse("12", "00").unwrap();
    let mut m = Monitor::new(stop);
    let clock = [(11, 50), (11, 50), (11, 51), (11, 55), (11, 55), (11, 58), (12, 0)];
    let mut file = None;
    for (i, (h, mi)) in clock.iter().enumerate() {
        let (f, _) = tick(&mut m, at(*h, *mi), up(i as u64 + 1));
        if f.is_some() {
            file = f;
        }
    }
    assert_eq!(m.state(), RunState::Succeeded);
    let file = file.unwrap();
    assert_eq!(
        file,
        vec![
            Time { real_time: at(11, 50), response_time: 1 },
            Time { real_time: at(11, 55), response_time: 4 },
        ]
    );
}

#[test]
fn no_sampling_minute_persists_nothing() {
    let stop = StopTime::parse("08", "04").unwrap();
    let mut m = Monitor::new(stop);
    let mut file = None;
    for minute in [1u8, 2, 3, 3, 4] {
        let (f, _) = tick(&mut m, at(8, minute), up(7));
        if f.is_some() {
            file = f;
        }
    }
    assert_eq!(m.state(), RunState::Succeeded);
    assert_eq!(file, Some(Vec::new()));
}

#[test]
fn transport_failure_counts_as_down() {
    let mut m = Monitor::new(StopTime::parse("00", "00").unwrap());
    let (_, probed) = tick(&mut m, at(1, 0), ProbeReport::from_status(None, 5));
    assert!(probed);
    assert_eq!(m.state(), RunState::Failed);
}

#[test]
fn redirect_status_counts_as_up() {
    assert!(status_is_ok(200));
    assert!(status_is_ok(204));
    assert!(status_is_ok(301));
    assert!(status_is_ok(399));
    assert!(!status_is_ok(199));
    assert!(!status_is_ok(400));
    assert!(!status_is_ok(500));
    let mut m = Monitor::new(StopTime::parse("00", "00").unwrap());
    tick(&mut m, at(1, 0), ProbeReport::from_status(Some(302), 5));
    assert_eq!(m.state(), RunState::Running);
}

#[test]
fn latency_rounds_to_nearest_millisecond() {
    assert_eq!(latency_ms(0), 0);
    assert_eq!(latency_ms(499_999), 0);
    assert_eq!(latency_ms(500_000), 1);
    assert_eq!(latency_ms(1_499_999), 1);
    assert_eq!(latency_ms(123_456_789), 123);
    assert_eq!(latency_ms(u64::MAX), 18_446_744_073_710);
}

#[test]
fn stop_hour_twenty_four_is_never_reached() {
    let stop = StopTime::parse("24", "00").unwrap();
    let mut m = Monitor::new(stop);
    for hour in 0..24u8 {
        tick(&mut m, at(hour, 0), up(1));
    }
    assert_eq!(m.state(), RunState::Running);
    assert_eq!(m.samples().len(), 24);
    assert_eq!(m.stop(), stop);
}
