use tor_lifecycle::HiddenServiceKeySpec;
use tor_lifecycle::PhaseReport;
use tor_lifecycle::ServiceHandle;
use tor_lifecycle::ServiceRegistry;

fn stub_handle() -> ServiceHandle {
    ServiceHandle { socks_port: 9050, control_endpoint: "127.0.0.1:9051".to_string() }
}

#[test]
fn startup_publishes_one_service_end_to_end() {
    // config: socks_port 9050, data_dir "/tmp/t", bootstrap_timeout_ms 30000;
    // the stub engine always succeeds and publishes "first.onion"
    let mut reg = ServiceRegistry::new();
    let replies = vec![Some("first.onion".to_string())];
    let r = reg.start_tor_if_not_running(
        "/tmp/t".to_string(),
        9050,
        80,
        30000,
        String::new(),
        PhaseReport::Failed,
        Some(stub_handle()),
        &replies,
    );
    assert!(r.is_success);
    assert!(!r.onion_address.is_empty());
    assert!(r.onion_address.ends_with(".onion"));
    assert_eq!(r.control, "127.0.0.1:9051");
    assert_eq!(r.error_message, "");
    assert_eq!(
        r.onion_addresses_json,
        serde_json::to_string(&vec!["first.onion".to_string()]).unwrap()
    );
}

#[test]
fn second_run_reuses_running_service_but_publishes_again() {
    let mut reg = ServiceRegistry::new();
    let first_replies = vec![Some("first.onion".to_string())];
    let r1 = reg.ensure_running_and_publish(
        9050,
        80,
        None,
        PhaseReport::Failed,
        Some(stub_handle()),
        &first_replies,
    );
    assert!(r1.is_success);
    assert_eq!(reg.current_service.as_ref().unwrap().control_endpoint, "127.0.0.1:9051");

    // the running service reports a live phase, so a second construction
    // offer must be ignored while creation runs again
    let other = ServiceHandle { socks_port: 9999, control_endpoint: "other:1".to_string() };
    let second_replies = vec![Some("second.onion".to_string())];
    let r2 = reg.ensure_running_and_publish(
        9050,
        80,
        None,
        PhaseReport::Done,
        Some(other),
        &second_replies,
    );
    assert!(r2.is_success);
    assert_eq!(reg.current_service.as_ref().unwrap().socks_port, 9050);
    assert_eq!(reg.current_service.as_ref().unwrap().control_endpoint, "127.0.0.1:9051");
    assert_eq!(r2.onion_address, "second.onion");
    assert_ne!(r1.onion_address, r2.onion_address);
}

#[test]
fn startup_fails_when_construction_fails() {
    let mut reg = ServiceRegistry::new();
    let replies: Vec<Option<String>> = vec![None];
    let r = reg.ensure_running_and_publish(9050, 80, None, PhaseReport::Failed, None, &replies);
    assert!(!r.is_success);
    assert_eq!(r.error_message, "Failed to initialize Tor service");
    assert_eq!(r.onion_address, "");
    assert_eq!(r.onion_addresses_json, "");
    assert!(reg.initialized);
    assert!(reg.current_service.is_none());
}

#[test]
fn startup_with_specs_aggregates_all_addresses() {
    let mut reg = ServiceRegistry::new();
    let specs = vec![
        HiddenServiceKeySpec { onion: None, seed_hex: None, pub_hex: None, generate: None },
        HiddenServiceKeySpec {
            onion: None,
            seed_hex: Some("ab".repeat(32)),
            pub_hex: None,
            generate: Some(false),
        },
    ];
    let replies = vec![
        Some("one.onion".to_string()),
        Some("two.onion".to_string()),
        None,
    ];
    let r = reg.ensure_running_and_publish(
        9050,
        80,
        Some(specs),
        PhaseReport::Failed,
        Some(stub_handle()),
        &replies,
    );
    assert!(r.is_success);
    assert_eq!(r.onion_address, "one.onion");
    assert_eq!(
        r.onion_addresses_json,
        serde_json::to_string(&vec!["one.onion".to_string(), "two.onion".to_string()]).unwrap()
    );
}

#[test]
fn unparsable_key_specs_degrade_to_one_random_service() {
    let mut reg = ServiceRegistry::new();
    let replies = vec![Some("rescued.onion".to_string())];
    let r = reg.start_tor_if_not_running(
        "/tmp/t".to_string(),
        9050,
        80,
        30000,
        "{not valid json".to_string(),
        PhaseReport::Failed,
        Some(stub_handle()),
        &replies,
    );
    assert!(r.is_success);
    assert_eq!(r.onion_address, "rescued.onion");
    assert_eq!(
        r.onion_addresses_json,
        serde_json::to_string(&vec!["rescued.onion".to_string()]).unwrap()
    );
}

#[test]
fn startup_reports_failed_fallback() {
    let mut reg = ServiceRegistry::new();
    let replies: Vec<Option<String>> = vec![None];
    let r = reg.ensure_running_and_publish(
        9050,
        80,
        None,
        PhaseReport::Failed,
        Some(stub_handle()),
        &replies,
    );
    assert!(!r.is_success);
    assert_eq!(r.error_message, "Failed to create hidden service");
    assert_eq!(
        r.onion_addresses_json,
        serde_json::to_string(&Vec::<String>::new()).unwrap()
    );
    // the service itself was still installed
    assert!(reg.current_service.is_some());
}
