use netscaler_probe::catalog::{parse_source, VersionCatalog};
use netscaler_probe::outcome::{
    conclude, network_failure, plan_host, process_response, render, resolve, Fetched, HostAction,
    ProbeOutcome,
};

fn table() -> VersionCatalog {
    parse_source(
        "2024-05-13T17:41:17+00:00,1715622077,,13.1-53.17\n\
         2024-07-04T16:31:28+00:00,1720110688,,14.1-25.56\n",
    )
}

fn stamped_body(secs: u32) -> Vec<u8> {
    let mut body = vec![0x1f, 0x8b, 0x08, 0x08];
    body.extend_from_slice(&secs.to_le_bytes());
    body.extend_from_slice(b"rdx_en.json\0");
    body
}

fn outcome(
    host: &str,
    version: Option<&str>,
    timestamp: Option<&str>,
    subject: Option<&str>,
    diagnostic: Option<&str>,
) -> ProbeOutcome {
    ProbeOutcome {
        host_address: host.to_string(),
        resolved_version: version.map(str::to_string),
        build_timestamp: timestamp.map(str::to_string),
        certificate_subject: subject.map(str::to_string),
        diagnostic: diagnostic.map(str::to_string),
    }
}

#[test]
fn token_that_is_no_address_is_reported_at_once() {
    let action = plan_host("not-an-ip");
    let expected = outcome("not-an-ip", None, None, None, Some("Invalid IP address"));
    assert_eq!(action, HostAction::Report(expected.clone()));
    assert_eq!(render(&expected), "not-an-ip,Unknown,Unknown,Invalid IP address");
}

#[test]
fn address_is_probed() {
    assert_eq!(plan_host("192.0.2.1"), HostAction::Probe);
    assert_eq!(plan_host("2001:db8::1"), HostAction::Probe);
}

#[test]
fn known_build_resolves_to_its_release() {
    let probed = process_response("192.0.2.1", None, &stamped_body(1_720_110_688));
    assert_eq!(probed, outcome("192.0.2.1", None, Some("2024-07-04T16:31:28+00:00"), None, None));
    let resolved = resolve(probed, &table());
    assert_eq!(resolved.resolved_version, Some("14.1-25.56".to_string()));
    assert_eq!(render(&resolved), "192.0.2.1,14.1-25.56,2024-07-04T16:31:28+00:00,Unknown");
}

#[test]
fn unknown_build_keeps_its_time_and_has_no_release() {
    let resolved = resolve(process_response("192.0.2.1", None, &stamped_body(5)), &table());
    assert_eq!(render(&resolved), "192.0.2.1,Unknown,1970-01-01T00:00:05+00:00,Unknown");
}

#[test]
fn short_body_leaves_version_and_time_unknown() {
    let resolved = resolve(process_response("192.0.2.7", None, &[1u8; 10]), &table());
    assert_eq!(resolved, outcome("192.0.2.7", None, None, None, None));
    assert_eq!(render(&resolved), "192.0.2.7,Unknown,Unknown,Unknown");
}

#[test]
fn wrong_signature_is_reported_in_the_time_field() {
    let resolved = resolve(process_response("192.0.2.7", None, &[0u8; 16]), &table());
    assert_eq!(resolved.build_timestamp, Some("Invalid gzip header".to_string()));
    assert_eq!(resolved.resolved_version, None);
    assert_eq!(render(&resolved), "192.0.2.7,Unknown,Invalid gzip header,Unknown");
}

#[test]
fn unreadable_certificate_does_not_fail_the_probe() {
    let probed = process_response("192.0.2.1", Some(&[0x30, 0x00]), &stamped_body(1_720_110_688));
    assert_eq!(probed.certificate_subject, None);
    assert_eq!(probed.build_timestamp, Some("2024-07-04T16:31:28+00:00".to_string()));
}

#[test]
fn refused_connection_puts_its_description_in_the_identity_slot() {
    let failed = network_failure("192.0.2.9", "connection refused".to_string());
    assert_eq!(failed, outcome("192.0.2.9", None, None, None, Some("connection refused")));
    assert_eq!(render(&failed), "192.0.2.9,Unknown,Unknown,connection refused");
}

#[test]
fn conclude_after_a_failure() {
    let fetched = Fetched::Failed { description: "connection refused".to_string() };
    let result = conclude("192.0.2.9", &fetched, &table());
    assert_eq!(result, outcome("192.0.2.9", None, None, None, Some("connection refused")));
}

#[test]
fn conclude_after_an_answer() {
    let fetched =
        Fetched::Answered { peer_certificate: None, body: stamped_body(1_715_622_077) };
    let result = conclude("2001:db8::1", &fetched, &table());
    assert_eq!(
        result,
        outcome("2001:db8::1", Some("13.1-53.17"), Some("2024-05-13T17:41:17+00:00"), None, None)
    );
    assert_eq!(render(&result), "2001:db8::1,13.1-53.17,2024-05-13T17:41:17+00:00,Unknown");
}

#[test]
fn resolve_without_build_time_does_not_consult_the_table() {
    let catalog = parse_source("Unknown,0,,never\n");
    let resolved = resolve(outcome("h", None, None, None, None), &catalog);
    assert_eq!(resolved.resolved_version, None);
}

#[test]
fn resolve_keeps_the_other_fields() {
    let before = outcome("h", None, Some("2024-07-04T16:31:28+00:00"), Some("cn"), Some("d"));
    let after = resolve(before.clone(), &table());
    assert_eq!(after.host_address, before.host_address);
    assert_eq!(after.build_timestamp, before.build_timestamp);
    assert_eq!(after.certificate_subject, before.certificate_subject);
    assert_eq!(after.diagnostic, before.diagnostic);
    assert_eq!(after.resolved_version, Some("14.1-25.56".to_string()));
}

#[test]
fn subject_takes_the_identity_slot_before_the_diagnostic() {
    let both = outcome("h", Some("v"), Some("t"), Some("gateway.example.test"), Some("d"));
    assert_eq!(render(&both), "h,v,t,gateway.example.test");
    let only_diagnostic = outcome("h", Some("v"), Some("t"), None, Some("d"));
    assert_eq!(render(&only_diagnostic), "h,v,t,d");
}

#[test]
fn line_has_four_fields_when_all_are_absent() {
    assert_eq!(render(&outcome("", None, None, None, None)), ",Unknown,Unknown,Unknown");
}
