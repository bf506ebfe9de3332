use tor_lifecycle::HiddenServiceKeySpec;
use tor_lifecycle::ServiceHandle;
use tor_lifecycle::ServiceRegistry;

fn running_registry() -> ServiceRegistry {
    let mut reg = ServiceRegistry::new();
    reg.initialize_tor_library();
    reg.init_tor_service(Some(ServiceHandle {
        socks_port: 9050,
        control_endpoint: "127.0.0.1:9051".to_string(),
    }));
    reg
}

fn seeded_spec(seed_hex: &str) -> HiddenServiceKeySpec {
    HiddenServiceKeySpec {
        onion: None,
        seed_hex: Some(seed_hex.to_string()),
        pub_hex: None,
        generate: Some(false),
    }
}

fn random_spec() -> HiddenServiceKeySpec {
    HiddenServiceKeySpec { onion: None, seed_hex: None, pub_hex: None, generate: None }
}

#[test]
fn create_one_without_service_fails_empty() {
    let reg = ServiceRegistry::new();
    let r = reg.create_hidden_service(8080, 80, Some("x.onion".to_string()));
    assert!(!r.is_success);
    assert_eq!(r.onion_address, "");
    assert_eq!(r.control, "");
}

#[test]
fn create_one_returns_address_and_control() {
    let reg = running_registry();
    let r = reg.create_hidden_service(8080, 80, Some("abcd.onion".to_string()));
    assert!(r.is_success);
    assert_eq!(r.onion_address, "abcd.onion");
    assert_eq!(r.control, "127.0.0.1:9051");
}

#[test]
fn create_one_engine_failure_is_empty_result() {
    let reg = running_registry();
    let r = reg.create_hidden_service_with_key(8080, 80, Some(vec![1u8; 64]), None);
    assert!(!r.is_success);
    assert_eq!(r.onion_address, "");
    assert_eq!(r.control, "");
}

#[test]
fn batch_empty_specs_falls_back_to_one_random_service() {
    let reg = running_registry();
    let specs: Vec<HiddenServiceKeySpec> = Vec::new();
    let replies = vec![Some("fallback.onion".to_string())];
    let (batch, requests) = reg.create_batch(9050, 80, &specs, &replies);
    assert!(batch.any_success);
    assert_eq!(batch.onion_addresses, vec!["fallback.onion".to_string()]);
    assert_eq!(batch.control_endpoint, "127.0.0.1:9051");
    // exactly one engine request, with a random (absent) key
    assert_eq!(requests.len(), 1);
    assert!(requests[0].secret_key.is_none());
    assert_eq!(requests[0].local_port, 9050);
    assert_eq!(requests[0].target_port, 80);
}

#[test]
fn batch_seeded_spec_requests_same_key_across_runs() {
    let reg = running_registry();
    let seed = "00010203040506070809f0f1f2f3f4f5a0a1a2a3a4a5a6a7b8b9babbbcbdbebf";
    let specs = vec![seeded_spec(seed)];
    let replies = vec![Some("det.onion".to_string()), None];

    let (batch1, requests1) = reg.create_batch(9050, 80, &specs, &replies);
    let (batch2, requests2) = reg.create_batch(9050, 80, &specs, &replies);

    // the derived key is a function of the seed alone, so two independent
    // runs put the same request to the engine and a deterministic engine
    // answers with the same address
    assert_eq!(requests1[0].secret_key, requests2[0].secret_key);
    assert!(requests1[0].secret_key.is_some());
    assert_eq!(requests1[0].secret_key.as_ref().unwrap().len(), 64);
    assert_eq!(batch1.onion_addresses, batch2.onion_addresses);
    assert_eq!(batch1.onion_addresses, vec!["det.onion".to_string()]);
}

#[test]
fn batch_skips_failed_entries() {
    let reg = running_registry();
    let specs = vec![random_spec(), random_spec(), random_spec()];
    let replies = vec![
        None,
        Some("second.onion".to_string()),
        Some("third.onion".to_string()),
        None,
    ];
    let (batch, requests) = reg.create_batch(9050, 80, &specs, &replies);
    assert!(batch.any_success);
    assert_eq!(
        batch.onion_addresses,
        vec!["second.onion".to_string(), "third.onion".to_string()]
    );
    // one request per spec and no fallback, since something succeeded
    assert_eq!(requests.len(), 3);
}

#[test]
fn batch_all_failed_falls_back_once() {
    let reg = running_registry();
    let specs = vec![random_spec(), seeded_spec("bad hex")];
    let replies = vec![None, None, Some("rescued.onion".to_string())];
    let (batch, requests) = reg.create_batch(9050, 80, &specs, &replies);
    assert!(batch.any_success);
    assert_eq!(batch.onion_addresses, vec!["rescued.onion".to_string()]);
    assert_eq!(requests.len(), 3);
    // an unusable seed degrades to a random key rather than aborting
    assert!(requests[1].secret_key.is_none());
    assert!(requests[2].secret_key.is_none());
}

#[test]
fn fallback_needed_exactly_when_all_planned_replies_failed() {
    let all_failed = vec![None, None];
    assert!(tor_lifecycle::batch_needs_fallback(&all_failed, 2));
    let one_success = vec![None, Some("x.onion".to_string())];
    assert!(!tor_lifecycle::batch_needs_fallback(&one_success, 2));
    // a success beyond the planned prefix does not count
    assert!(tor_lifecycle::batch_needs_fallback(&one_success, 1));
    // an empty plan has nothing that could succeed
    let empty: Vec<Option<String>> = Vec::new();
    assert!(tor_lifecycle::batch_needs_fallback(&empty, 0));
}

#[test]
fn batch_without_service_makes_no_requests() {
    let reg = ServiceRegistry::new();
    let specs = vec![random_spec()];
    let replies = vec![Some("x.onion".to_string()), Some("y.onion".to_string())];
    let (batch, requests) = reg.create_batch(9050, 80, &specs, &replies);
    assert!(!batch.any_success);
    assert!(batch.onion_addresses.is_empty());
    assert_eq!(batch.control_endpoint, "");
    assert!(requests.is_empty());
}
