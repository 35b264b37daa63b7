use sidecar_supervisor::config;
use sidecar_supervisor::gate::{GateStep, StartupGate};
use sidecar_supervisor::is_ok_status;
use sidecar_supervisor::launcher::{classify_launch, launch_attempts, parent_dir, LaunchOutcome};
use sidecar_supervisor::locator::{
    binary_candidates, find_backend_binary, find_backend_script, first_present,
    script_candidates, Candidate,
};

fn cand(path: &str, exists: bool, is_file: bool) -> Candidate {
    Candidate { path: path.to_string(), exists, is_file }
}

#[test]
fn script_candidates_follow_search_order() {
    let v = script_candidates(Some("/work"), Some("/res"));
    assert_eq!(
        v,
        vec![
            "/work/../backend/app.py".to_string(),
            "/work/backend/app.py".to_string(),
            "/res/_up_/backend/app.py".to_string(),
            "/res/backend/app.py".to_string(),
            "/res/app.py".to_string(),
        ]
    );
    assert_eq!(script_candidates(None, None), Vec::<String>::new());
}

#[test]
fn binary_candidates_follow_search_order() {
    let v = binary_candidates(Some("/work"), None);
    assert_eq!(
        v,
        vec![
            "/work/../backend/dist/stocksbot-backend".to_string(),
            "/work/../backend/dist/stocksbot-backend.exe".to_string(),
            "/work/backend/dist/stocksbot-backend".to_string(),
            "/work/backend/dist/stocksbot-backend.exe".to_string(),
        ]
    );
    let v = binary_candidates(None, Some("/res"));
    assert_eq!(v.len(), 6);
    assert_eq!(v[0], "/res/_up_/backend/dist/stocksbot-backend");
    assert_eq!(v[5], "/res/stocksbot-backend.exe");
}

#[test]
fn first_present_takes_the_first_regular_file() {
    let cands = vec![
        cand("a", false, false),
        cand("b", true, false),
        cand("c", true, true),
        cand("d", true, true),
    ];
    assert_eq!(first_present(&cands), Some(2));
    assert_eq!(find_backend_binary(&cands), Some("c".to_string()));
    assert_eq!(find_backend_script(&cands), Some("c".to_string()));
    let none = vec![cand("a", false, false), cand("b", true, false)];
    assert_eq!(first_present(&none), None);
    assert_eq!(find_backend_binary(&none), None);
}

#[test]
fn attempts_try_binary_then_interpreters() {
    let v = launch_attempts(
        &Some("dist/backend".to_string()),
        &Some("backend/app.py".to_string()),
    );
    assert_eq!(v.len(), 3);
    assert_eq!(v[0].program, "dist/backend");
    assert_eq!(v[0].script_arg, None);
    assert_eq!(v[1].program, "python3");
    assert_eq!(v[1].script_arg, Some("backend/app.py".to_string()));
    assert_eq!(v[2].program, "python");
    assert_eq!(v[2].script_arg, Some("backend/app.py".to_string()));
    assert_eq!(launch_attempts(&None, &None).len(), 0);
    let only_script = launch_attempts(&None, &Some("app.py".to_string()));
    assert_eq!(only_script.len(), 2);
    assert_eq!(only_script[0].program, "python3");
}

#[test]
fn reachable_backend_means_external_instance() {
    // A listener is already on the port: nothing is launched, whatever
    // candidates exist.
    assert_eq!(classify_launch(true, 3, None), LaunchOutcome::ExternalInstance);
    assert_eq!(classify_launch(true, 0, None), LaunchOutcome::ExternalInstance);
    // No child handle was ever owned, so shutdown finds nothing to
    // terminate.
    let mut sup: sidecar_supervisor::supervisor::Supervisor<u32> =
        sidecar_supervisor::supervisor::Supervisor::new(3, 5);
    assert_eq!(sup.shutdown(), None);
}

#[test]
fn launch_classification() {
    assert_eq!(classify_launch(false, 0, None), LaunchOutcome::NoCandidate);
    assert_eq!(classify_launch(false, 3, Some(1)), LaunchOutcome::Launched(1));
    assert_eq!(classify_launch(false, 2, None), LaunchOutcome::Failed);
}

#[test]
fn parent_directories() {
    assert_eq!(parent_dir("/res/backend/app.py"), Some("/res/backend".to_string()));
    assert_eq!(parent_dir("dist/backend"), Some("dist".to_string()));
    assert_eq!(parent_dir("app.py"), None);
}

#[test]
fn startup_gate_polls_until_healthy_or_spent() {
    let mut g = StartupGate::new(3);
    assert_eq!(g.observe(false), GateStep::Retry);
    assert_eq!(g.observe(false), GateStep::Retry);
    assert_eq!(g.observe(false), GateStep::FinalProbe);
    let mut g = StartupGate::new(3);
    assert_eq!(g.observe(false), GateStep::Retry);
    assert_eq!(g.observe(true), GateStep::Ready);
    let mut g = StartupGate::new(1);
    assert_eq!(g.observe(false), GateStep::FinalProbe);
}

#[test]
fn health_probe_accepts_only_ok() {
    assert!(is_ok_status(200));
    assert!(!is_ok_status(204));
    assert!(!is_ok_status(404));
    assert!(!is_ok_status(500));
}

#[test]
fn fixed_backend_parameters() {
    assert_eq!(config::BACKEND_ADDR, "127.0.0.1:8000");
    assert_eq!(config::health_url(), "http://127.0.0.1:8000/status");
    assert_eq!(config::RESTART_THRESHOLD, 3);
    assert_eq!(config::SESSION_RESTART_CAP, 5);
    assert_eq!(config::STARTUP_GATE_ATTEMPTS, 60);
}
