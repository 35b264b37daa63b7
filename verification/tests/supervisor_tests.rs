use sidecar_supervisor::supervisor::{Notice, Status, Supervisor, TickOutcome};

fn fresh(threshold: u32, cap: u32) -> Supervisor<u32> {
    Supervisor::new(threshold, cap)
}

fn fail_until_restart(sup: &mut Supervisor<u32>) -> TickOutcome {
    loop {
        let out = sup.on_probe(false);
        if out.restart || out.stopped {
            return out;
        }
    }
}

#[test]
fn three_failures_trigger_one_restart() {
    let mut sup = fresh(3, 5);
    let out1 = sup.on_probe(false);
    assert!(!out1.restart);
    assert_eq!(sup.status(), Status::Degraded(1));
    let out2 = sup.on_probe(false);
    assert!(!out2.restart);
    assert_eq!(sup.status(), Status::Degraded(2));
    let out3 = sup.on_probe(false);
    assert!(out3.restart);
    assert_eq!(out3.notice, Some(Notice::Unhealthy));
    assert_eq!(sup.status(), Status::Restarting);
    // No second restart is requested until the first attempt is reported.
    let out4 = sup.on_probe(false);
    assert!(!out4.restart);
    assert_eq!(sup.status(), Status::Restarting);
}

#[test]
fn successful_restart_returns_to_healthy() {
    let mut sup = fresh(3, 5);
    for _ in 0..2 {
        assert!(!sup.on_probe(false).restart);
    }
    assert!(sup.on_probe(false).restart);
    let notice = sup.finish_restart(true, true);
    assert_eq!(notice, Some(Notice::Restarted));
    assert_eq!(sup.status(), Status::Healthy);
    assert_eq!(sup.restart_count, 1);
}

#[test]
fn recovery_below_threshold_resets_counter() {
    let mut sup = fresh(3, 5);
    assert!(!sup.on_probe(false).restart);
    assert!(!sup.on_probe(false).restart);
    assert_eq!(sup.status(), Status::Degraded(2));
    let out = sup.on_probe(true);
    assert!(!out.restart);
    assert_eq!(out.notice, Some(Notice::Recovered));
    assert_eq!(sup.status(), Status::Healthy);
    assert_eq!(sup.restart_count, 0);
}

#[test]
fn healthy_probe_while_healthy_is_silent() {
    let mut sup = fresh(3, 5);
    let out = sup.on_probe(true);
    assert_eq!(out.notice, None);
    assert!(!out.restart);
    assert!(!out.stopped);
    assert_eq!(sup.status(), Status::Healthy);
}

#[test]
fn unhealthy_notice_only_on_first_threshold_crossing() {
    let mut sup = fresh(3, 5);
    let out = fail_until_restart(&mut sup);
    assert_eq!(out.notice, Some(Notice::Unhealthy));
    // Launch succeeded but the backend never turned healthy: still degraded.
    assert_eq!(sup.finish_restart(true, false), None);
    assert_eq!(sup.status(), Status::Degraded(3));
    // The next failed probe asks for another restart but repeats no notice.
    let out2 = sup.on_probe(false);
    assert!(out2.restart);
    assert_eq!(out2.notice, None);
}

#[test]
fn failed_launch_keeps_degraded_state() {
    let mut sup = fresh(3, 5);
    fail_until_restart(&mut sup);
    assert_eq!(sup.finish_restart(false, false), None);
    assert_eq!(sup.status(), Status::Degraded(3));
    assert_eq!(sup.restart_count, 0);
}

#[test]
fn cap_exhaustion_after_five_failed_cycles() {
    let mut sup = fresh(3, 5);
    for cycle in 0..5 {
        let out = fail_until_restart(&mut sup);
        assert!(out.restart);
        // Launch works every time, but the backend never turns healthy.
        assert_eq!(sup.finish_restart(true, false), None);
        assert_eq!(sup.restart_count, cycle + 1);
    }
    assert_eq!(sup.restart_count, 5);
    // The sixth crossing finds the cap spent: no restart, a distinct notice.
    let out = sup.on_probe(false);
    assert!(!out.restart);
    assert_eq!(out.notice, Some(Notice::Exhausted));
    assert_eq!(sup.status(), Status::RestartExhausted);
    // Monitoring keeps going, but never another restart or notice.
    for _ in 0..10 {
        let out = sup.on_probe(false);
        assert!(!out.restart);
        assert_eq!(out.notice, None);
        assert_eq!(sup.status(), Status::RestartExhausted);
    }
    // Even a healthy backend does not re-enable automatic recovery.
    let out = sup.on_probe(true);
    assert!(!out.restart);
    assert_eq!(sup.status(), Status::RestartExhausted);
    assert_eq!(sup.restart_count, 5);
}

#[test]
fn stop_request_prevents_any_launch() {
    let mut sup = fresh(3, 5);
    assert!(!sup.on_probe(false).restart);
    assert!(!sup.on_probe(false).restart);
    sup.request_stop();
    // The next tick observes the stop, whatever its probe would say.
    let out = sup.on_probe(false);
    assert!(out.stopped);
    assert!(!out.restart);
    assert_eq!(sup.status(), Status::Stopped);
    for _ in 0..5 {
        let out = sup.on_probe(false);
        assert!(out.stopped);
        assert!(!out.restart);
    }
    assert_eq!(sup.restart_count, 0);
}

#[test]
fn shutdown_reaps_the_child_exactly_once() {
    let mut sup = fresh(3, 5);
    assert_eq!(sup.attach_child(7), None);
    // Shutdown before any tick completes: the handle comes out once.
    assert_eq!(sup.shutdown(), Some(7));
    // A second shutdown finds nothing; it is a no-op, not an error.
    assert_eq!(sup.shutdown(), None);
    // After the stop, an offered handle is refused and handed back.
    assert_eq!(sup.attach_child(9), Some(9));
    assert_eq!(sup.shutdown(), None);
}

#[test]
fn second_child_is_refused_while_one_is_owned() {
    let mut sup = fresh(3, 5);
    assert_eq!(sup.attach_child(1), None);
    assert_eq!(sup.attach_child(2), Some(2));
    assert_eq!(sup.take_child(), Some(1));
    assert_eq!(sup.take_child(), None);
    assert_eq!(sup.attach_child(3), None);
}

#[test]
fn restart_counter_never_exceeds_cap() {
    let mut sup = fresh(1, 2);
    let mut last = 0;
    for _ in 0..20 {
        let out = sup.on_probe(false);
        if out.restart {
            sup.finish_restart(true, false);
        }
        assert!(sup.restart_count >= last);
        assert!(sup.restart_count <= 2);
        last = sup.restart_count;
    }
    assert_eq!(sup.restart_count, 2);
    assert_eq!(sup.status(), Status::RestartExhausted);
}
