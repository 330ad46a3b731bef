use ethercrab_ffi::mailbox::{
    assess_reading, check_mailbox_resilient, mailbox_has_mail, MailboxPoll, MailboxStatus,
};
use ethercrab_ffi::master::Master;

const FULL_TOGGLE_1: u8 = 0x0A;
const FULL_TOGGLE_0: u8 = 0x08;

#[test]
fn test_mailbox_check_error_cases() {
    let mut m = Master::new();
    m.shutdown();
    assert!(!m.mailbox_access(true, 0));
}

#[test]
fn test_mailbox_resilient_failure() {
    let mut m = Master::new();
    m.shutdown();
    assert!(!m.mailbox_access(true, 0), "Should return -1 when master not initialized");
}

#[test]
fn test_mailbox_resilient_error_cases() {
    let mut m = Master::new();
    m.shutdown();
    assert!(!m.mailbox_access(false, 0), "Should return -1 when master not initialized");
}

#[test]
fn toggled_full_reading_is_new_mail_at_once() {
    let r = check_mailbox_resilient(true, &vec![Some(FULL_TOGGLE_1), None, None], 0);
    assert_eq!(r, MailboxStatus::NewMail);
}

#[test]
fn any_full_reading_is_new_mail_without_prior_toggle() {
    for v in [FULL_TOGGLE_0, FULL_TOGGLE_1, 0xFF, 0x08 | 0x40] {
        let r = check_mailbox_resilient(true, &vec![Some(v), None, None], 2);
        assert_eq!(r, MailboxStatus::NewMail);
        let mut poll = MailboxPoll::new(2);
        assert_eq!(poll.on_reading(Some(v)), Some(MailboxStatus::NewMail));
    }
}

#[test]
fn stuck_mailbox_exhausts_retries() {
    let stuck = vec![Some(FULL_TOGGLE_0); 3];
    assert_eq!(check_mailbox_resilient(true, &stuck, 0), MailboxStatus::RetryExhausted);
}

#[test]
fn empty_mailbox_reports_empty() {
    let r = check_mailbox_resilient(true, &vec![Some(0x02), Some(FULL_TOGGLE_1), None], 0);
    assert_eq!(r, MailboxStatus::Empty);
}

#[test]
fn failed_reads_are_retried() {
    let r = check_mailbox_resilient(true, &vec![None, Some(FULL_TOGGLE_0), Some(FULL_TOGGLE_1)], 0);
    assert_eq!(r, MailboxStatus::NewMail);
    let r = check_mailbox_resilient(true, &vec![None, None, None], 1);
    assert_eq!(r, MailboxStatus::RetryExhausted);
    let r = check_mailbox_resilient(true, &vec![None, None, None, Some(0)], 1);
    assert_eq!(r, MailboxStatus::RetryExhausted);
}

#[test]
fn unhealthy_link_is_unavailable() {
    let r = check_mailbox_resilient(false, &vec![Some(FULL_TOGGLE_1); 3], 0);
    assert_eq!(r, MailboxStatus::Unavailable);
}

#[test]
fn poll_counts_its_attempts() {
    let mut poll = MailboxPoll::new(1);
    assert_eq!(poll.on_reading(Some(FULL_TOGGLE_1)), None);
    assert_eq!(poll.on_reading(None), None);
    assert_eq!(poll.on_reading(Some(FULL_TOGGLE_1)), Some(MailboxStatus::RetryExhausted));
    assert_eq!(poll.attempts, 3);
}

#[test]
fn coarse_check_reads_the_full_bit() {
    assert!(mailbox_has_mail(0x08));
    assert!(mailbox_has_mail(0xFF));
    assert!(!mailbox_has_mail(0xF7));
    assert_eq!(assess_reading(Some(0x00), 0), Some(MailboxStatus::Empty));
    assert_eq!(assess_reading(Some(FULL_TOGGLE_1), 1), None);
    assert_eq!(assess_reading(None, 2), None);
}

#[test]
fn mailbox_access_needs_health_session_and_device() {
    let mut m = Master::new();
    assert_eq!(m.record_handle(Ok(())), Ok(()));
    let id = ethercrab_ffi::session::SlaveIdentity {
        vendor_id: 2,
        product_code: 7,
        revision: 0,
        serial_number: 0,
    };
    assert_eq!(m.complete_initialize(Ok(vec![id])), Ok(()));
    assert!(m.mailbox_access(true, 0));
    assert!(!m.mailbox_access(false, 0));
    assert!(!m.mailbox_access(true, 1));
}
