use deploy_watch::decode::{decode_domains_body, live_url};
use deploy_watch::state::{parse_state, Deployment, DeploymentState, MonitorStatus};
use deploy_watch::step::{
    building_message, notification_icon, poll_once, poll_step, ready_message, within_build_window,
    Action,
};

const NOW_MS: i64 = 1_700_000_000_000;

fn deployment(name: &str, created_ms: i64, state: DeploymentState) -> Deployment {
    Deployment { name: name.to_string(), created_ms, state }
}

#[test]
fn parse_state_recognises_each_platform_state() {
    assert_eq!(parse_state("QUEUED"), DeploymentState::Queued);
    assert_eq!(parse_state("BUILDING"), DeploymentState::Building);
    assert_eq!(parse_state("READY"), DeploymentState::Ready);
    assert_eq!(parse_state("ERROR"), DeploymentState::Error);
    assert_eq!(parse_state("CANCELED"), DeploymentState::Canceled);
}

#[test]
fn parse_state_maps_anything_else_to_other() {
    assert_eq!(parse_state("INITIALIZING"), DeploymentState::Other);
    assert_eq!(parse_state(""), DeploymentState::Other);
    assert_eq!(parse_state("ready"), DeploymentState::Other);
    assert_eq!(parse_state("READY "), DeploymentState::Other);
}

#[test]
fn build_window_boundaries() {
    assert!(within_build_window(NOW_MS, NOW_MS - 179_999, true));
    assert!(!within_build_window(NOW_MS, NOW_MS - 180_000, true));
    assert!(!within_build_window(NOW_MS, NOW_MS - 200_000, true));
    // A deployment stamped in the future counts as young.
    assert!(within_build_window(NOW_MS, NOW_MS + 60_000, true));
}

#[test]
fn build_window_with_unrepresentable_timestamp_is_open() {
    // Age is treated as zero, whatever the stamp says.
    assert!(within_build_window(NOW_MS, NOW_MS - 400_000, false));
    assert!(within_build_window(NOW_MS, i64::MAX, false));
}

#[test]
fn build_window_survives_extreme_timestamps() {
    assert!(!within_build_window(i64::MAX, i64::MIN, true));
    assert!(within_build_window(i64::MIN, i64::MAX, true));
}

#[test]
fn fresh_building_deployment_notifies_and_sleeps_fifteen() {
    let mut status = MonitorStatus::new();
    let d = deployment("site", NOW_MS - 60_000, DeploymentState::Building);
    let out = poll_step(&mut status, &d, NOW_MS, true);
    assert_eq!(out.action, Action::NotifyBuilding);
    assert_eq!(out.sleep_secs, 15);
    assert!(!status.ready_notified);
    assert_eq!(building_message(), "Deployment is building...");
}

#[test]
fn old_building_deployment_stays_quiet() {
    let mut status = MonitorStatus::new();
    let d = deployment("site", NOW_MS - 200_000, DeploymentState::Building);
    let out = poll_step(&mut status, &d, NOW_MS, true);
    assert_eq!(out.action, Action::Quiet);
    assert_eq!(out.sleep_secs, 15);
}

#[test]
fn young_non_building_states_stay_quiet() {
    for state in [DeploymentState::Queued, DeploymentState::Error, DeploymentState::Canceled,
        DeploymentState::Other] {
        let mut status = MonitorStatus::new();
        let d = deployment("site", NOW_MS - 60_000, state);
        let out = poll_step(&mut status, &d, NOW_MS, true);
        assert_eq!(out.action, Action::Quiet);
        assert_eq!(out.sleep_secs, 15);
        assert!(!status.ready_notified);
    }
}

#[test]
fn ready_deployment_announces_once_and_sleeps_thirty() {
    let mut status = MonitorStatus::new();
    let d = deployment("site", NOW_MS - 200_000, DeploymentState::Ready);
    let out = poll_step(&mut status, &d, NOW_MS, true);
    assert_eq!(out.action, Action::NotifyReadyAndOpen);
    assert_eq!(out.sleep_secs, 30);
    assert!(status.ready_notified);
    assert_eq!(ready_message(), "Deployment is ready!");
}

#[test]
fn second_ready_poll_is_quiet() {
    let mut status = MonitorStatus::new();
    let d = deployment("site", NOW_MS - 200_000, DeploymentState::Ready);
    let first = poll_step(&mut status, &d, NOW_MS, true);
    assert_eq!(first.action, Action::NotifyReadyAndOpen);
    let second = poll_step(&mut status, &d, NOW_MS + 30_000, true);
    assert_eq!(second.action, Action::Quiet);
    assert!(status.ready_notified);
}

#[test]
fn leaving_ready_resets_suppression_and_reentering_reannounces() {
    let mut status = MonitorStatus::new();
    let ready = deployment("site", NOW_MS - 200_000, DeploymentState::Ready);
    let building = deployment("site", NOW_MS + 100_000, DeploymentState::Building);
    let ready_again = deployment("site", NOW_MS + 100_000, DeploymentState::Ready);

    let first = poll_step(&mut status, &ready, NOW_MS, true);
    assert_eq!(first.action, Action::NotifyReadyAndOpen);

    let rebuild = poll_step(&mut status, &building, NOW_MS + 120_000, true);
    assert_eq!(rebuild.action, Action::NotifyBuilding);
    assert!(!status.ready_notified);

    let reready = poll_step(&mut status, &ready_again, NOW_MS + 240_000, true);
    assert_eq!(reready.action, Action::NotifyReadyAndOpen);
    assert!(status.ready_notified);
}

#[test]
fn unrepresentable_created_time_still_notifies_building() {
    let mut status = MonitorStatus::new();
    let d = deployment("site", i64::MIN, DeploymentState::Building);
    let out = poll_step(&mut status, &d, NOW_MS, false);
    assert_eq!(out.action, Action::NotifyBuilding);
}

#[test]
fn poll_once_announces_ready_once_against_the_real_clock() {
    let mut status = MonitorStatus::new();
    let d = deployment("site", NOW_MS, DeploymentState::Ready);
    let first = poll_once(&mut status, &d);
    assert_eq!(first.action, Action::NotifyReadyAndOpen);
    assert_eq!(first.sleep_secs, 30);
    let second = poll_once(&mut status, &d);
    assert_eq!(second.action, Action::Quiet);
}

#[test]
fn ready_scenario_opens_url_built_from_domains_response() {
    let mut status = MonitorStatus::new();
    let d = deployment("site", NOW_MS - 200_000, DeploymentState::Ready);
    let out = poll_step(&mut status, &d, NOW_MS, true);
    assert_eq!(out.action, Action::NotifyReadyAndOpen);
    assert_eq!(ready_message(), "Deployment is ready!");
    let domains = r#"{"domains":[{"name":"site.example.com"}]}"#;
    let domain = decode_domains_body(domains).unwrap();
    assert_eq!(live_url(&domain), "https://site.example.com");
}

#[test]
fn notification_icon_is_fixed() {
    assert_eq!(notification_icon(), "/images/rucelify.png");
}
