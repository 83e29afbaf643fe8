//! Settling each operation's outcome: success messages, domain
//! failures inside acks, transport failures, and the log feed's filter.

use wash::ctl::{ActorDescription, Claims, ClaimsList, Host, HostInventory, ProviderDescription};
use wash::dispatch::{hosts_output, format_inventory_for_output, claims_output, CommandOutcome};
use wash::logbuf::{LogBuffer, LogLevel};
use wash::repl::{SubmitOutcome, KeyCode, KeyEffect, KeyModifier, WashRepl};
use wash::text::u64_to_string;

fn submit(repl: &mut WashRepl, line: &str) -> u64 {
    for c in line.chars() {
        repl.handle_key(KeyCode::Char(c), KeyModifier::Plain);
    }
    match repl.handle_key(KeyCode::Enter, KeyModifier::Plain) {
        KeyEffect::Submitted(SubmitOutcome::Dispatched(id)) => id,
        _ => panic!("line did not dispatch: {}", line),
    }
}

#[test]
fn start_actor_ack_reports_the_references() {
    let mut repl = WashRepl::new();
    let id = submit(&mut repl, "start actor NHOST myactor:0.1");
    // Submitting a start already announces the request.
    let rec = repl.logs.records.last().unwrap();
    assert_eq!(rec.level, LogLevel::Info);
    assert_eq!(rec.message, "Sending request to start actor myactor:0.1");
    repl.complete_call(id, CommandOutcome::StartActorAck {
        actor_ref: "myactor:0.1".to_string(),
        actor_id: "MACTOR".to_string(),
    });
    assert_eq!(repl.output_state.output[0], "Starting myactor:0.1 (MACTOR)");
}

#[test]
fn stop_ack_with_a_domain_failure_is_an_error_record() {
    let mut repl = WashRepl::new();
    let id = submit(&mut repl, "stop actor NHOST myactor:0.1");
    let outputs_before = repl.output_state.output.len();
    repl.complete_call(id, CommandOutcome::StopActorAck {
        failure: Some("no such actor".to_string()),
    });
    assert_eq!(repl.output_state.output.len(), outputs_before);
    let rec = repl.logs.records.last().unwrap();
    assert_eq!(rec.level, LogLevel::Error);
    assert_eq!(rec.message, "no such actor");
}

#[test]
fn clean_stop_names_the_requests_own_reference() {
    let mut repl = WashRepl::new();
    let id = submit(&mut repl, "stop provider NHOST myprov:0.2 default wasmcloud:keyvalue");
    repl.complete_call(id, CommandOutcome::StopProviderAck { failure: None });
    assert_eq!(repl.output_state.output[0], "Successfully stopped provider myprov:0.2");
}

#[test]
fn link_success_confirms_in_both_feeds() {
    let mut repl = WashRepl::new();
    let id = submit(&mut repl, "link MACTOR VPROV wasmcloud:keyvalue");
    repl.complete_call(id, CommandOutcome::LinkAck);
    assert_eq!(repl.output_state.output[0], "Linked MACTOR <-> VPROV");
    let rec = repl.logs.records.last().unwrap();
    assert_eq!(rec.level, LogLevel::Info);
    assert_eq!(rec.message, "Published link successfully");
}

#[test]
fn link_transport_failure_is_prefixed() {
    let mut repl = WashRepl::new();
    let id = submit(&mut repl, "link MACTOR VPROV wasmcloud:keyvalue");
    repl.complete_call(id, CommandOutcome::Transport("timed out".to_string()));
    let rec = repl.logs.records.last().unwrap();
    assert_eq!(rec.level, LogLevel::Error);
    assert_eq!(rec.message, "Error publishing link timed out");
}

#[test]
fn call_with_an_embedded_error_is_an_error_record() {
    let mut repl = WashRepl::new();
    let id = submit(&mut repl, "call MACTOR Op");
    repl.complete_call(id, CommandOutcome::CallResponse {
        msg: vec![],
        invocation_id: "inv".to_string(),
        error: Some("actor panicked".to_string()),
    });
    assert!(repl.output_state.output.is_empty());
    let rec = repl.logs.records.last().unwrap();
    assert_eq!(rec.level, LogLevel::Error);
    assert_eq!(rec.message, "Error invoking actor: actor panicked");
}

#[test]
fn call_response_bytes_are_decoded_for_the_panel() {
    let mut repl = WashRepl::new();
    let id = submit(&mut repl, "call MACTOR Op");
    repl.complete_call(id, CommandOutcome::CallResponse {
        msg: "hello \u{1F30A}".as_bytes().to_vec(),
        invocation_id: "inv".to_string(),
        error: None,
    });
    assert_eq!(repl.output_state.output[0], "Call response (raw): hello \u{1F30A}");
}

#[test]
fn hosts_report_lands_on_the_panel() {
    let mut repl = WashRepl::new();
    let id = submit(&mut repl, "get hosts");
    repl.complete_call(id, CommandOutcome::Hosts(vec![
        Host { id: "NHOSTONE".to_string(), uptime_seconds: 93 },
        Host { id: "NHOSTTWO".to_string(), uptime_seconds: 4 },
    ]));
    assert_eq!(
        repl.output_state.output,
        vec![
            " HOST_ID                                                    UPTIME(seconds) ",
            " NHOSTONE   93",
            " NHOSTTWO   4",
            "",
        ]
    );
}

#[test]
fn claims_report_lands_on_the_panel() {
    let mut repl = WashRepl::new();
    let id = submit(&mut repl, "get claims");
    let logs_before = repl.logs.records.len();
    repl.complete_call(id, CommandOutcome::ClaimsReport(ClaimsList {
        claims: vec![Claims {
            issuer: Some("ISSUER".to_string()),
            subject: Some("SUBJECT".to_string()),
            capabilities: None,
            version: Some("0.1.0".to_string()),
            revision: None,
        }],
    }));
    // The report is a success, so it goes to the output panel, not the
    // log feed.
    assert_eq!(repl.logs.records.len(), logs_before);
    assert_eq!(
        repl.output_state.output,
        vec![
            "Issuer: ISSUER",
            "Subject: SUBJECT",
            "Capabilities: ",
            "Version: 0.1.0",
            "Revision: ",
            "",
            "",
            "",
        ]
    );
    assert_eq!(repl.output_state.output_cursor, repl.output_state.output.len());
}

#[test]
fn inventory_report_lands_on_the_panel() {
    let mut repl = WashRepl::new();
    let id = submit(&mut repl, "get inventory NHOST");
    repl.complete_call(id, CommandOutcome::Inventory(HostInventory {
        host_id: "NHOST".to_string(),
        labels: vec![("hostcore.arch".to_string(), "x86_64".to_string())],
        actors: vec![],
        providers: vec![],
    }));
    assert_eq!(repl.output_state.output[0], "HOST INVENTORY (NHOST)");
    assert_eq!(repl.output_state.output[1], "LABELS");
    assert_eq!(repl.output_state.output[2], "  hostcore.arch=x86_64");
    assert_eq!(repl.output_state.output_cursor, repl.output_state.output.len());
}

#[test]
fn start_provider_announces_then_reports() {
    let mut repl = WashRepl::new();
    let id = submit(&mut repl, "start provider NHOST myprov:0.2");
    let rec = repl.logs.records.last().unwrap();
    assert_eq!(rec.message, "Sending request to start provider myprov:0.2");
    repl.complete_call(id, CommandOutcome::StartProviderAck {
        provider_ref: "myprov:0.2".to_string(),
        provider_id: "VPROV".to_string(),
    });
    assert_eq!(repl.output_state.output[0], "Starting myprov:0.2 (VPROV)");
}

#[test]
fn hosts_output_is_exact() {
    let hosts = vec![Host { id: "N1".to_string(), uptime_seconds: 0 }];
    assert_eq!(
        hosts_output(&hosts),
        " HOST_ID                                                    UPTIME(seconds) \n N1   0"
    );
    assert_eq!(
        hosts_output(&vec![]),
        " HOST_ID                                                    UPTIME(seconds) \n"
    );
}

#[test]
fn inventory_format_is_exact() {
    let inv = HostInventory {
        host_id: "NHOST".to_string(),
        labels: vec![("hostcore.os".to_string(), "linux".to_string())],
        actors: vec![ActorDescription { id: "MACTOR".to_string(), image_ref: None }],
        providers: vec![ProviderDescription {
            id: "VPROV".to_string(),
            link_name: "default".to_string(),
            image_ref: Some("reg/prov:0.1".to_string()),
        }],
    };
    assert_eq!(
        format_inventory_for_output(&inv),
        "HOST INVENTORY (NHOST)\nLABELS\n  hostcore.os=linux\n\nACTORS\n  MACTOR   N/A\n\
         \nPROVIDERS\n  VPROV   default   reg/prov:0.1\n"
    );
}

#[test]
fn claims_output_renders_each_claim() {
    let list = ClaimsList {
        claims: vec![
            Claims {
                issuer: Some("I1".to_string()),
                subject: Some("S1".to_string()),
                capabilities: Some("wasmcloud:httpserver".to_string()),
                version: Some("1".to_string()),
                revision: Some("2".to_string()),
            },
        ],
    };
    assert_eq!(
        claims_output(&list),
        "Issuer: I1\nSubject: S1\nCapabilities: wasmcloud:httpserver\nVersion: 1\nRevision: 2\n\n"
    );
}

#[test]
fn decimal_rendering_is_exact() {
    assert_eq!(u64_to_string(0), "0");
    assert_eq!(u64_to_string(9), "9");
    assert_eq!(u64_to_string(10), "10");
    assert_eq!(u64_to_string(407), "407");
    assert_eq!(u64_to_string(u64::MAX), "18446744073709551615");
}

#[test]
fn the_log_filter_selects_by_level_in_order() {
    let mut logs = LogBuffer::new();
    logs.append(LogLevel::Info, "WASH_LOG", "one".to_string());
    logs.append(LogLevel::Error, "WASH_CMD", "two".to_string());
    logs.append(LogLevel::Trace, "WASH_LOG", "three".to_string());
    logs.append(LogLevel::Warn, "WASH_CMD", "four".to_string());
    assert_eq!(logs.visible_indices(LogLevel::Error), vec![1]);
    assert_eq!(logs.visible_indices(LogLevel::Warn), vec![1, 3]);
    assert_eq!(logs.visible_indices(LogLevel::Info), vec![0, 1, 3]);
    assert_eq!(logs.visible_indices(LogLevel::Trace), vec![0, 1, 2, 3]);
    assert_eq!(logs.record(2).message, "three");
}
