use ethercat_hal::al_diagnostics::{
    deadline_exceeded_status, decode_al_status, fallback_addresses, status_from_reads, EtherCATTransition, SubDeviceAlStatus, SubDeviceState,
    TransitionLog, TransitionReport, MAX_REPORTS,
};
use std::time::Duration;

/// `AlStatusCode::NoError`.
const NO_ERROR: u16 = 0x0000;
/// `AlStatusCode::InvalidInputConfiguration`.
const INVALID_INPUT_CONFIGURATION: u16 = 0x001E;

fn status(name: &str, code: Option<u16>, error_flag: bool) -> SubDeviceAlStatus {
    SubDeviceAlStatus {
        device_address: 0x1000,
        name: name.into(),
        state: Some(SubDeviceState::SafeOp),
        error_flag,
        al_status_code: code,
        read_error: None,
    }
}

fn report(statuses: Vec<SubDeviceAlStatus>) -> TransitionReport {
    TransitionReport {
        transition: EtherCATTransition::SafeOpToOpRequest,
        succeeded: false,
        error: Some("Timeout".into()),
        duration: Duration::from_secs(20),
        statuses,
    }
}

#[test]
fn decodes_state_and_error_flag() {
    assert_eq!(
        decode_al_status(0x12),
        (Some(SubDeviceState::PreOp), true),
        "0x12 is PreOp with the error flag set"
    );
    assert_eq!(decode_al_status(0x08), (Some(SubDeviceState::Op), false));
    assert_eq!(decode_al_status(0x04), (Some(SubDeviceState::SafeOp), false));
    assert_eq!(decode_al_status(0x00), (Some(SubDeviceState::NoState), false));
}

#[test]
fn faulty_devices_skips_healthy_ones() {
    let report = report(vec![
        status("EL2004", Some(NO_ERROR), false),
        status("EL7031", Some(INVALID_INPUT_CONFIGURATION), true),
    ]);

    let faulty = report.faulty_devices();
    assert_eq!(faulty.len(), 1);
    assert_eq!(faulty[0].name, "EL7031");
}

#[test]
fn unreachable_device_counts_as_faulty() {
    let mut unreachable = status("EL1008", None, false);
    unreachable.read_error = Some("WorkingCounter".into());
    assert!(unreachable.is_faulty());
}

#[test]
fn log_caps_and_evicts_oldest_first() {
    let mut log = TransitionLog::new();
    for i in 0..MAX_REPORTS + 5 {
        let mut r = report(vec![]);
        r.duration = Duration::from_secs(i as u64);
        log.push(r);
    }

    let reports = log.reports();
    assert_eq!(reports.len(), MAX_REPORTS);
    assert_eq!(
        reports[0].duration,
        Duration::from_secs(5),
        "the five oldest reports should have been evicted"
    );
}

#[test]
fn last_failure_finds_the_most_recent_one() {
    let mut log = TransitionLog::new();

    let mut failed = report(vec![]);
    failed.transition = EtherCATTransition::PreOpPdiToSafeOp;
    log.push(failed);

    let mut succeeded = report(vec![]);
    succeeded.succeeded = true;
    succeeded.error = None;
    log.push(succeeded);

    let last = log.last_failure().expect("a failure was recorded");
    assert_eq!(last.transition, EtherCATTransition::PreOpPdiToSafeOp);
}

#[test]
fn last_failure_is_none_when_everything_worked() {
    let mut log = TransitionLog::new();
    let mut ok = report(vec![]);
    ok.succeeded = true;
    ok.error = None;
    log.push(ok);

    assert!(log.last_failure().is_none());
}

/// The state nibble of every AL code goes through ethercrab's decoding:
/// bootstrap, init and unknown codes included.
#[test]
fn decodes_every_state_nibble() {
    assert_eq!(decode_al_status(0x01), (Some(SubDeviceState::Init), false));
    assert_eq!(decode_al_status(0x03), (Some(SubDeviceState::Bootstrap), false));
    assert_eq!(decode_al_status(0x15), (Some(SubDeviceState::Other(5)), true));
    assert_eq!(decode_al_status(0xFFE2), (Some(SubDeviceState::PreOp), false));
}

#[test]
fn nonzero_status_code_alone_is_faulty() {
    assert!(status("EL7031", Some(INVALID_INPUT_CONFIGURATION), false).is_faulty());
    assert!(!status("EL2004", Some(NO_ERROR), false).is_faulty());
    assert!(status("EL2004", None, true).is_faulty());
}

#[test]
fn faulty_devices_keep_snapshot_order() {
    let report = report(vec![
        status("A", None, true),
        status("B", Some(NO_ERROR), false),
        status("C", Some(INVALID_INPUT_CONFIGURATION), false),
    ]);
    let faulty = report.faulty_devices();
    assert_eq!(faulty.len(), 2);
    assert_eq!(faulty[0].name, "A");
    assert_eq!(faulty[1].name, "C");
}

#[test]
fn latest_failure_wins_over_an_older_one() {
    let mut log = TransitionLog::new();
    let mut first = report(vec![]);
    first.transition = EtherCATTransition::InitGroup;
    log.push(first);
    let mut second = report(vec![]);
    second.transition = EtherCATTransition::OpRamp;
    log.push(second);
    assert_eq!(log.last_failure().unwrap().transition, EtherCATTransition::OpRamp);
    assert_eq!(log.reports().len(), 2);
}

#[test]
fn fallback_addresses_count_up_from_the_base() {
    let addresses = fallback_addresses(3);
    assert_eq!(addresses.len(), 3);
    assert_eq!(addresses[0].0, 0x1000);
    assert_eq!(addresses[2].0, 0x1002);
    assert_eq!(addresses[1].1, "subdevice #1");
}

#[test]
fn renders_the_al_status_code_text() {
    let rendered = report(vec![
        status("EL2004", Some(NO_ERROR), false),
        status("EL7031", Some(INVALID_INPUT_CONFIGURATION), true),
    ])
    .text();

    assert!(
        rendered.contains("0x001e: Invalid Input Configuration"),
        "expected the ETG1000.6 code and reason, got: {rendered}"
    );
    assert!(rendered.contains("EL7031 @0x1000"));
    assert!(rendered.contains("+ERR"));
    assert!(
        !rendered.contains("EL2004"),
        "healthy devices should not be listed, got: {rendered}"
    );
}

#[test]
fn failure_without_faulty_devices_says_so() {
    let rendered = report(vec![status("EL2004", Some(NO_ERROR), false)]).text();
    assert!(rendered.contains("no subdevice reported an AL error"));
}

#[test]
fn report_text_names_step_outcome_and_duration() {
    let mut r = report(vec![]);
    r.succeeded = true;
    r.error = None;
    r.duration = Duration::from_millis(1500);
    assert_eq!(r.text(), "SafeOp -> OP (request_into_op) succeeded after 1.5s");
    let failed = report(vec![]);
    assert_eq!(
        failed.text(),
        "SafeOp -> OP (request_into_op) failed after 20.0s: Timeout \u{2014} no subdevice reported an AL error"
    );
}

#[test]
fn status_lines_show_state_flag_and_code() {
    let s = status("EL7031", Some(INVALID_INPUT_CONFIGURATION), true);
    assert_eq!(
        s.text(),
        "EL7031 @0x1000: Safe-Operational +ERR, 0x001e: Invalid Input Configuration"
    );
    let mut gone = status("EL1008", None, false);
    gone.read_error = Some("WorkingCounter".into());
    assert_eq!(gone.text(), "EL1008 @0x1000: unreachable (WorkingCounter)");
    assert_eq!(SubDeviceState::Other(0x1c).text(), "Other(1c)");
    assert_eq!(
        EtherCATTransition::TxRx(ethercat_hal::ethercat_state::EtherCATState::PreopPdi).text(),
        "TX/RX in PreopPdi"
    );
}

#[test]
fn statuses_come_from_their_reads() {
    let unreachable = status_from_reads(0x1001, "a".to_string(), Err("Timeout".to_string()), Some(3));
    assert!(unreachable.state.is_none());
    assert_eq!(unreachable.read_error.as_deref(), Some("Timeout"));
    assert_eq!(unreachable.al_status_code, None);
    assert!(unreachable.is_faulty());
    let op = status_from_reads(0x1002, "b".to_string(), Ok(0x0008), Some(0));
    assert_eq!(op.state, Some(SubDeviceState::Op));
    assert!(!op.error_flag);
    assert!(!op.is_faulty());
    let flagged = status_from_reads(0x1003, "c".to_string(), Ok(0x0012), None);
    assert_eq!(flagged.state, Some(SubDeviceState::PreOp));
    assert!(flagged.error_flag);
    let late = deadline_exceeded_status(0x1004, "d".to_string());
    assert_eq!(
        late.read_error.as_deref(),
        Some("snapshot deadline exceeded before this device was read")
    );
}

use ethercat_hal::al_diagnostics::{read_before_deadline, SNAPSHOT_DEADLINE_MS};

#[test]
fn devices_are_read_until_the_snapshot_deadline() {
    assert!(read_before_deadline(0));
    assert!(read_before_deadline(SNAPSHOT_DEADLINE_MS - 1));
    assert!(!read_before_deadline(SNAPSHOT_DEADLINE_MS));
    assert!(!read_before_deadline(u64::MAX));
}
