use ethercrab_ffi::error::EcError;
use ethercrab_ffi::master::{InitAction, Master};
use ethercrab_ffi::process_data::{fan_in, fan_out, new_process_data_buffer};
use ethercrab_ffi::session::{plan_transition, EngineStep, GroupState, SlaveIdentity, Sizing};

fn identity(vendor_id: u32, product_code: u32, serial_number: u32) -> SlaveIdentity {
    SlaveIdentity { vendor_id, product_code, revision: 1, serial_number }
}

fn initialized(devices: Vec<SlaveIdentity>) -> Master {
    let mut m = Master::new();
    assert_eq!(m.begin_initialize(), InitAction::OpenHandle);
    assert_eq!(m.record_handle(Ok(())), Ok(()));
    assert_eq!(m.complete_initialize(Ok(devices)), Ok(()));
    m
}

fn request(m: &mut Master, target: u8, input_lens: Vec<usize>, output_lens: Vec<usize>) {
    let plan = m.begin_transition(target).unwrap();
    let _ = plan;
    assert_eq!(m.complete_transition(target, Ok(()), &input_lens, &output_lens), Ok(()));
}

#[test]
fn test_destroy_before_init_is_safe() {
    let mut m = Master::new();
    m.shutdown();
    assert_eq!(m.current_state(), 0, "State should be 0 after destroy with no init");
}

#[test]
fn test_multiple_destroy_calls_are_safe() {
    let mut m = Master::new();
    m.shutdown();
    m.shutdown();
    m.shutdown();
    assert_eq!(m.current_state(), 0, "State should be 0 after multiple destroys");
}

#[test]
fn test_get_state_uninitialized_returns_zero() {
    let mut m = Master::new();
    m.shutdown();
    assert_eq!(m.current_state(), 0, "Uninitialized state should be 0");
}

#[test]
fn test_destroy_is_idempotent() {
    let mut m = initialized(vec![identity(2, 0x044c2c52, 0)]);
    for _ in 0..100 {
        m.shutdown();
    }
    assert_eq!(m.current_state(), 0);
}

#[test]
fn test_mailbox_polling_error_cases() {
    let mut m = Master::new();
    m.shutdown();
    assert_eq!(m.configure_mailbox_polling(100), Err(EcError::NotInitialized));
}

#[test]
fn test_mailbox_polling_config() {
    let mut m = initialized(vec![identity(2, 7, 0)]);
    assert_eq!(m.configure_mailbox_polling(100), Ok(()));
    assert_eq!(m.session.as_ref().unwrap().mailbox_poll_interval_ms, Some(100));
    assert_eq!(m.configure_mailbox_polling(0), Ok(()));
    assert_eq!(m.session.as_ref().unwrap().mailbox_poll_interval_ms, None);
}

#[test]
fn initialize_builds_preop_session_with_no_sizes() {
    let m = initialized(vec![identity(2, 7, 0), identity(2, 8, 0)]);
    assert_eq!(m.current_state(), 1);
    assert_eq!(m.pdi_total_size(), 0);
    let s = m.session.as_ref().unwrap();
    assert_eq!(s.expected_wkc, 0);
    assert!(m.handle_open);
}

#[test]
fn initialize_twice_is_a_no_op_success() {
    let mut m = initialized(vec![identity(2, 7, 0)]);
    assert_eq!(m.begin_initialize(), InitAction::AlreadyActive);
    request(&mut m, 2, vec![4], vec![2]);
    assert_eq!(m.begin_initialize(), InitAction::AlreadyActive);
    assert_eq!(m.current_state(), 2);
}

#[test]
fn initialize_after_shutdown_reuses_the_handle() {
    let mut m = initialized(vec![identity(2, 7, 0)]);
    m.shutdown();
    assert_eq!(m.begin_initialize(), InitAction::Enumerate);
}

#[test]
fn initialize_failures_leave_no_session() {
    let mut m = Master::new();
    assert_eq!(m.record_handle(Err("storage already split".to_string())), Err(EcError::ResourceBusy));
    assert_eq!(m.last_error(), "storage already split");
    assert!(!m.handle_open);
    assert_eq!(m.record_handle(Ok(())), Ok(()));
    assert_eq!(m.complete_initialize(Err("no devices answered".to_string())), Err(EcError::ProtocolError));
    assert_eq!(m.current_state(), 0);
    assert_eq!(m.last_error(), "no devices answered");
}

#[test]
fn last_error_holds_only_the_latest_failure() {
    let mut m = Master::new();
    assert_eq!(m.complete_initialize(Err("first".to_string())), Err(EcError::ProtocolError));
    assert_eq!(m.complete_initialize(Err("second".to_string())), Err(EcError::ProtocolError));
    assert_eq!(m.last_error(), "second");
    assert_eq!(m.last_error(), "second");
}

#[test]
fn transition_table_plans() {
    let p = plan_transition(GroupState::PreOp, 2);
    assert_eq!(p.steps, vec![EngineStep::IntoSafeOp]);
    assert_eq!(p.landing, GroupState::SafeOp);
    assert_eq!(p.sizing, Sizing::Recompute);

    let p = plan_transition(GroupState::Op, 0);
    assert_eq!(p.steps, vec![EngineStep::IntoSafeOp, EngineStep::IntoPreOp]);
    assert_eq!(p.landing, GroupState::PreOp);
    assert_eq!(p.sizing, Sizing::Reset);

    let p = plan_transition(GroupState::SafeOp, 1);
    assert_eq!(p.steps, vec![EngineStep::IntoPreOp]);
    assert_eq!(p.landing, GroupState::PreOp);

    let p = plan_transition(GroupState::SafeOp, 3);
    assert_eq!(p.steps, vec![EngineStep::IntoOp]);
    assert_eq!(p.landing, GroupState::Op);
    assert_eq!(p.sizing, Sizing::Keep);

    let p = plan_transition(GroupState::Op, 2);
    assert_eq!(p.steps, vec![EngineStep::IntoSafeOp]);
    assert_eq!(p.landing, GroupState::SafeOp);
    assert_eq!(p.sizing, Sizing::Keep);

    let p = plan_transition(GroupState::Op, 3);
    assert!(p.steps.is_empty());
    assert_eq!(p.landing, GroupState::Op);

    let p = plan_transition(GroupState::PreOp, 3);
    assert!(p.steps.is_empty());
    assert_eq!(p.landing, GroupState::PreOp);

    let p = plan_transition(GroupState::SafeOp, 9);
    assert!(p.steps.is_empty());
    assert_eq!(p.landing, GroupState::SafeOp);
}

#[test]
fn transitions_follow_the_table_and_sizes() {
    let mut m = initialized(vec![identity(2, 7, 0), identity(2, 8, 0), identity(2, 9, 0)]);
    request(&mut m, 2, vec![2, 0, 4], vec![1, 1, 0]);
    assert_eq!(m.current_state(), 2);
    let s = m.session.as_ref().unwrap();
    assert_eq!(s.input_size, 6);
    assert_eq!(s.output_size, 2);
    assert_eq!(s.expected_wkc, 3);
    assert_eq!(m.pdi_total_size(), 8);

    request(&mut m, 3, vec![], vec![]);
    assert_eq!(m.current_state(), 3);
    assert_eq!(m.pdi_total_size(), 8);

    request(&mut m, 2, vec![], vec![]);
    assert_eq!(m.current_state(), 2);
    assert_eq!(m.pdi_total_size(), 8);

    request(&mut m, 3, vec![], vec![]);
    request(&mut m, 0, vec![], vec![]);
    assert_eq!(m.current_state(), 1);
    assert_eq!(m.pdi_total_size(), 0);
    assert_eq!(m.session.as_ref().unwrap().expected_wkc, 0);

    request(&mut m, 3, vec![], vec![]);
    assert_eq!(m.current_state(), 1);
    request(&mut m, 7, vec![], vec![]);
    assert_eq!(m.current_state(), 1);
}

#[test]
fn transition_failure_keeps_the_group() {
    let mut m = initialized(vec![identity(2, 7, 0)]);
    request(&mut m, 2, vec![4], vec![2]);
    let r = m.complete_transition(3, Err("into_op timed out".to_string()), &vec![], &vec![]);
    assert_eq!(r, Err(EcError::ProtocolError));
    assert_eq!(m.current_state(), 2);
    assert_eq!(m.pdi_total_size(), 6);
    assert_eq!(m.last_error(), "into_op timed out");
}

#[test]
fn transition_without_session_is_not_initialized() {
    let m = Master::new();
    assert!(matches!(m.begin_transition(2), Err(EcError::NotInitialized)));
}

#[test]
fn end_to_end_cycle_in_op() {
    let mut m = initialized(vec![identity(2, 7, 0), identity(2, 8, 0)]);
    let in_lens = vec![2, 1];
    let out_lens = vec![1, 2];
    request(&mut m, 2, in_lens.clone(), out_lens.clone());
    request(&mut m, 3, vec![], vec![]);
    assert_eq!(m.current_state(), 3);
    let mut image = new_process_data_buffer();
    image[0] = 0xAA;
    image[1] = 0x01;
    image[2] = 0x02;
    for cycle in 0..10u8 {
        let start = m.begin_exchange().unwrap();
        assert_eq!(start, 3);
        let outs = fan_out(&image, &out_lens);
        assert_eq!(outs, vec![Some(vec![0xAA]), Some(vec![0x01, 0x02])]);
        let wkc = m.complete_exchange(Ok(3)).unwrap();
        assert_eq!(wkc, 3);
        let inputs = vec![vec![cycle, cycle + 1], vec![0x55]];
        fan_in(&mut image, start, &inputs);
        assert_eq!(&image[3..6], &[cycle, cycle + 1, 0x55]);
        assert_eq!(m.current_state(), 3);
    }
}

#[test]
fn exchange_outside_op_is_refused() {
    let mut m = Master::new();
    assert_eq!(m.begin_exchange(), Err(EcError::NotInitialized));
    m = initialized(vec![identity(2, 7, 0)]);
    assert_eq!(m.begin_exchange(), Err(EcError::NotOperational));
    request(&mut m, 2, vec![1], vec![1]);
    assert_eq!(m.begin_exchange(), Err(EcError::NotOperational));
}

#[test]
fn failed_exchange_records_cause() {
    let mut m = initialized(vec![identity(2, 7, 0)]);
    request(&mut m, 2, vec![1], vec![1]);
    request(&mut m, 3, vec![], vec![]);
    assert_eq!(m.complete_exchange(Err("timeout".to_string())), Err(EcError::ExchangeFailed));
    assert_eq!(m.last_error(), "timeout");
    assert_eq!(m.current_state(), 3);
}

#[test]
fn topology_match_rules() {
    let m = initialized(vec![identity(2, 7, 100), identity(3, 8, 200)]);
    assert!(m.topology_matches(&vec![identity(2, 7, 0), identity(3, 8, 0)]));
    assert!(m.topology_matches(&vec![identity(2, 7, 100), identity(3, 8, 200)]));
    assert!(!m.topology_matches(&vec![identity(2, 7, 101), identity(3, 8, 200)]));
    assert!(!m.topology_matches(&vec![identity(2, 7, 0)]));
    assert!(!m.topology_matches(&vec![identity(2, 9, 0), identity(3, 8, 0)]));
    assert!(!m.topology_matches(&vec![]));
    assert!(!Master::new().topology_matches(&vec![identity(2, 7, 0)]));
}

#[test]
fn test_emergency_get_error_cases() {
    let mut m = Master::new();
    m.shutdown();
    assert_eq!(m.last_emergency(), None);
}

#[test]
fn emergency_is_overwritten_and_cleared_by_shutdown() {
    let mut m = Master::new();
    m.store_emergency(1, 0x8130, 0x11);
    m.store_emergency(2, 0x2310, 0x03);
    let e = m.last_emergency().unwrap();
    assert_eq!((e.slave_index, e.error_code, e.error_register), (2, 0x2310, 0x03));
    m.shutdown();
    assert_eq!(m.last_emergency(), None);
}

#[test]
fn scan_is_refused_while_a_session_lives() {
    let m = initialized(vec![identity(2, 7, 0)]);
    assert_eq!(m.begin_scan(), Err(EcError::ResourceBusy));
    assert_eq!(m.current_state(), 1);
    let mut m = m;
    m.shutdown();
    assert_eq!(m.begin_scan(), Ok(()));
}

#[test]
fn device_and_process_data_slots() {
    let mut m = initialized(vec![identity(2, 7, 0), identity(2, 8, 0)]);
    assert_eq!(m.device_slot(1), Ok(1));
    assert_eq!(m.device_slot(2), Err(EcError::DeviceNotFound));
    assert_eq!(m.process_data_slot(0), Err(EcError::NotOperational));
    request(&mut m, 2, vec![1, 1], vec![1, 1]);
    request(&mut m, 3, vec![], vec![]);
    assert_eq!(m.process_data_slot(1), Ok(1));
    assert_eq!(m.process_data_slot(5), Err(EcError::DeviceNotFound));
    assert_eq!(Master::new().process_data_slot(0), Err(EcError::NotInitialized));
}

/// One initialisation whose enumeration finds no answering devices, as on an
/// interface with nothing behind it.
fn failing_init(m: &mut Master) -> Result<(), EcError> {
    match m.begin_initialize() {
        InitAction::AlreadyActive => return Ok(()),
        InitAction::OpenHandle => m.record_handle(Ok(()))?,
        InitAction::Enumerate => {}
    }
    m.complete_initialize(Err("Failed to init single group: Timeout".to_string()))
}

#[test]
fn test_ethercrab_get_state_uninitialized() {
    let m = Master::new();
    let state = m.current_state();
    assert!(state <= 3, "State should be 0-3, got {}", state);
}

#[test]
fn test_destroy_cleans_state_after_failed_init() {
    let mut m = Master::new();
    assert!(failing_init(&mut m).is_err());
    m.shutdown();
    assert_eq!(m.current_state(), 0, "State should be 0 after destroy");
    assert!(failing_init(&mut m).is_err());
    m.shutdown();
}

#[test]
fn test_multiple_init_attempts_with_cleanup() {
    let mut m = Master::new();
    for i in 0..3 {
        let result = failing_init(&mut m);
        assert!(result.is_err(), "Init attempt {} should fail", i);
        m.shutdown();
        assert_eq!(m.current_state(), 0, "State should be 0 after destroy in iteration {}", i);
    }
}

#[test]
fn test_rapid_init_destroy_cycles() {
    let mut m = Master::new();
    for i in 0..50 {
        assert!(failing_init(&mut m).is_err(), "Cycle {}: init should fail", i);
        m.shutdown();
        assert_eq!(m.current_state(), 0, "Cycle {}: state should be 0", i);
    }
}

#[test]
fn test_error_message_persists_until_cleared() {
    let mut m = Master::new();
    m.shutdown();
    assert_eq!(failing_init(&mut m), Err(EcError::ProtocolError));
    let error1 = m.last_error().clone();
    let error2 = m.last_error().clone();
    assert_eq!(error1, error2, "Error should persist across reads");
    assert_eq!(error1, "Failed to init single group: Timeout");
}

#[test]
fn test_init_idempotency_returns_success_if_already_initialized() {
    let mut m = Master::new();
    m.shutdown();
    assert!(failing_init(&mut m).is_err(), "First init should fail (no hardware)");
    assert_eq!(m.current_state(), 0);
    assert_eq!(m.begin_initialize(), InitAction::Enumerate);
    assert!(failing_init(&mut m).is_err(), "Second init should also fail");
    let mut live = initialized(vec![identity(2, 7, 0)]);
    assert_eq!(failing_init(&mut live), Ok(()));
    assert_eq!(failing_init(&mut live), Ok(()));
    assert_eq!(live.current_state(), 1);
}
