//! The pieces around the console: the supervisor's lifecycle, the
//! one-shot query tables, cache draining, and archive naming.

use wash::ctl::{claims_table, hosts_table, host_inventory_table, Claims, ClaimsList, Host,
    HostInventory};
use wash::drain::{drain_summary, DrainSelection, OutputKind};
use wash::par::default_archive_output;
use wash::supervisor::{ctl_namespace, hostless_error_message, member_started_message,
    HostSupervisor, SupervisorAction, SupervisorEvent, SupervisorPhase};

#[test]
fn supervisor_runs_from_connections_to_interrupt() {
    let mut sup = HostSupervisor::new();
    assert_eq!(sup.phase, SupervisorPhase::Starting);
    let a = sup.step(SupervisorEvent::ConnectionsOpened);
    assert_eq!(a, SupervisorAction::StartMember);
    assert_eq!(sup.phase, SupervisorPhase::Connected);
    let a = sup.step(SupervisorEvent::MemberStarted("NMEMBER".to_string()));
    assert_eq!(a, SupervisorAction::AwaitInterrupt);
    assert_eq!(sup.phase, SupervisorPhase::Running);
    assert_eq!(sup.member.as_deref(), Some("NMEMBER"));
    let a = sup.step(SupervisorEvent::Interrupt);
    assert_eq!(a, SupervisorAction::StopMember);
    assert_eq!(sup.phase, SupervisorPhase::Stopped);
}

#[test]
fn a_connection_failure_ends_only_this_thread() {
    let mut sup = HostSupervisor::new();
    let a = sup.step(SupervisorEvent::ConnectionFailed);
    assert_eq!(a, SupervisorAction::ExitThread);
    assert_eq!(sup.phase, SupervisorPhase::Hostless);
    // No restart: every further event is a no-op.
    let a = sup.step(SupervisorEvent::ConnectionsOpened);
    assert_eq!(a, SupervisorAction::NoAction);
    assert_eq!(sup.phase, SupervisorPhase::Hostless);
    let a = sup.step(SupervisorEvent::Interrupt);
    assert_eq!(a, SupervisorAction::NoAction);
}

#[test]
fn supervisor_messages_name_member_and_namespace() {
    assert_eq!(ctl_namespace(), "default");
    assert_eq!(
        member_started_message("NMEMBER"),
        "Host: NMEMBER started in namespace: default"
    );
    assert_eq!(
        hostless_error_message(),
        "Error launching host, please ensure NATS is running. Continuing in hostless mode"
    );
}

#[test]
fn hosts_table_renders_ids_and_uptime() {
    let hosts = vec![Host { id: "NHOSTONE".to_string(), uptime_seconds: 93 }];
    let with_ns = hosts_table(&hosts, &Some("custom".to_string()));
    assert!(with_ns.contains("Hosts - custom"));
    assert!(with_ns.contains("Host ID"));
    assert!(with_ns.contains("Uptime (seconds)"));
    assert!(with_ns.contains("NHOSTONE"));
    assert!(with_ns.contains("93"));
    let without_ns = hosts_table(&hosts, &None);
    assert!(without_ns.contains("Hosts - "));
    // The rendering is a bordered table, not the raw rows.
    assert!(with_ns.lines().count() > 3);
}

#[test]
fn inventory_table_says_when_sections_are_empty() {
    let inv = HostInventory {
        host_id: "NHOST".to_string(),
        labels: vec![],
        actors: vec![],
        providers: vec![],
    };
    let text = host_inventory_table(&inv);
    assert!(text.contains("Host Inventory - NHOST"));
    assert!(text.contains("No labels present"));
    assert!(text.contains("No actors found"));
    assert!(text.contains("No providers found"));
}

#[test]
fn claims_table_renders_each_field_row() {
    let list = ClaimsList {
        claims: vec![Claims {
            issuer: Some("I1".to_string()),
            subject: Some("S1".to_string()),
            capabilities: None,
            version: None,
            revision: None,
        }],
    };
    let text = claims_table(&list, &None);
    assert!(text.contains("Claims - "));
    assert!(text.contains("Issuer"));
    assert!(text.contains("I1"));
    assert!(text.contains("Subject"));
    assert!(text.contains("Capabilities"));
    assert!(text.contains("Version"));
    assert!(text.contains("Revision"));
}

#[test]
fn drain_selections_name_their_cache_folders() {
    assert_eq!(
        DrainSelection::All.cache_folders(),
        vec!["wasmcloudcache", "wasmcloud_ocicache"]
    );
    assert_eq!(DrainSelection::Oci.cache_folders(), vec!["wasmcloud_ocicache"]);
    assert_eq!(DrainSelection::Lib.cache_folders(), vec!["wasmcloudcache"]);
}

#[test]
fn drain_summary_matches_the_requested_form() {
    let cleared = vec!["/tmp/wasmcloudcache".to_string(), "/tmp/wasmcloud_ocicache".to_string()];
    assert_eq!(
        drain_summary(&OutputKind::Text, &cleared),
        "Successfully cleared caches at: [\"/tmp/wasmcloudcache\", \"/tmp/wasmcloud_ocicache\"]"
    );
    assert_eq!(
        drain_summary(&OutputKind::JSON, &cleared),
        "{\"drained\":[\"/tmp/wasmcloudcache\",\"/tmp/wasmcloud_ocicache\"]}"
    );
}

#[test]
fn archives_default_to_the_binary_stem() {
    assert_eq!(default_archive_output("libkeyvalue"), "libkeyvalue.par");
}
