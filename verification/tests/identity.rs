use worker::clock::{epoch_seconds, unix_time};
use worker::identity::{endpoint, NodeIdentity, LISTEN_PORT, MASTER_ADDRESS, MASTER_PORT};

#[test]
fn deployment_constants_are_fixed() {
    assert_eq!(LISTEN_PORT, 9000);
    assert_eq!(MASTER_ADDRESS, "master");
    assert_eq!(MASTER_PORT, 8081);
}

#[test]
fn identity_keeps_its_parts() {
    let identity = NodeIdentity::new("n1".to_string(), 9100, "10.0.0.5".to_string(), 7000);
    assert_eq!(identity.id(), "n1");
    assert_eq!(identity.port(), 9100);
    assert_eq!(identity.master_address(), "10.0.0.5");
    assert_eq!(identity.master_port(), 7000);
    assert_eq!(identity.master_endpoint(), "10.0.0.5:7000");
    assert_eq!(identity.clone(), identity);
}

#[test]
fn identity_with_an_id_uses_the_fixed_deployment() {
    let identity = NodeIdentity::with_id("abc".to_string());
    assert_eq!(identity, NodeIdentity::new("abc".to_string(), 9000, "master".to_string(), 8081));
    assert_eq!(identity.master_endpoint(), "master:8081");
}

#[test]
fn endpoint_ports_are_written_in_decimal() {
    let endpoint = |port: u16| {
        NodeIdentity::new("n".to_string(), 1, "h".to_string(), port).master_endpoint()
    };
    assert_eq!(endpoint(0), "h:0");
    assert_eq!(endpoint(80), "h:80");
    assert_eq!(endpoint(65535), "h:65535");
}

#[test]
fn endpoint_joins_address_and_port() {
    assert_eq!(endpoint("master", 8081), "master:8081");
    assert_eq!(endpoint("", 0), ":0");
    assert_eq!(endpoint("::1", 443), "::1:443");
}

#[test]
fn generated_identifier_has_the_canonical_uuid_shape() {
    let identity = NodeIdentity::generate();
    let id = identity.id();
    assert_eq!(id.len(), 36);
    for (i, c) in id.chars().enumerate() {
        if i == 8 || i == 13 || i == 18 || i == 23 {
            assert_eq!(c, '-');
        } else {
            assert!(matches!(c, '0'..='9' | 'a'..='f'));
        }
    }
    assert_eq!(identity.port(), 9000);
    assert_eq!(identity.master_address(), "master");
    assert_eq!(identity.master_port(), 8081);
}

#[test]
fn generated_identifiers_differ() {
    let first = NodeIdentity::generate();
    let second = NodeIdentity::generate();
    assert_ne!(first.id(), second.id());
}

#[test]
fn clock_reads_a_time_after_the_year_2020() {
    let now = unix_time();
    assert!(now > 1_577_836_800);
    assert!(unix_time() >= now);
}

#[test]
fn clock_before_the_epoch_counts_as_the_epoch() {
    assert_eq!(epoch_seconds(None), 0);
    assert_eq!(epoch_seconds(Some(0)), 0);
    assert_eq!(epoch_seconds(Some(1_700_000_000)), 1_700_000_000);
    assert_eq!(epoch_seconds(Some(u64::MAX)), u64::MAX);
}
