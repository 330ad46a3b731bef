//! Properties that relate several operations of the master, proved over the
//! same spec functions their contracts use.
use vstd::prelude::*;
use crate::master::{InitAction, Master};
use crate::mailbox::{
    MAILBOX_ATTEMPTS, MailboxStatus, mailbox_full, poll_outcome, reading_outcome, toggle_bit,
};
use crate::session::{GroupState, Session, regions_ok, total};

verus! {

/// The master after a successful request for `target`, as
/// `Master::complete_transition` leaves it.
pub open spec fn after_request(
    m: Master,
    target: u8,
    input_lens: Seq<usize>,
    output_lens: Seq<usize>,
) -> Master {
    Master {
        session: Some(m.session.unwrap().transitioned(target, total(input_lens), total(output_lens))),
        ..m
    }
}

/// A successful state request lands where the transition table says: 0 and
/// 1 in PreOp, 2 in SafeOp, 3 in Op from SafeOp or Op, anything else where
/// the group was. Sizes are zero whenever the group is not in SafeOp or Op,
/// and entering SafeOp from PreOp never shrinks them.
pub proof fn lemma_transition_table(
    m: Master,
    target: u8,
    input_lens: Seq<usize>,
    output_lens: Seq<usize>,
)
    requires
        m.wf(),
        m.session.is_some(),
        regions_ok(input_lens),
        regions_ok(output_lens),
    ensures
        ({
            let m2 = after_request(m, target, input_lens, output_lens);
            let s = m.session.unwrap();
            let s2 = m2.session.unwrap();
            &&& m2.wf()
            &&& target <= 1 ==> m2.state_code() == 1
            &&& target == 2 ==> m2.state_code() == 2
            &&& target == 3 && s.group != GroupState::PreOp ==> m2.state_code() == 3
            &&& (target > 3 || (target == 3 && s.group == GroupState::PreOp)) ==> m2.state_code()
                == m.state_code()
            &&& m2.state_code() != 2 && m2.state_code() != 3 ==> s2.pdi_size() == 0
            &&& s.group == GroupState::PreOp && target == 2 ==> s2.pdi_size() >= s.pdi_size()
                && s2.input_size == total(input_lens) && s2.output_size == total(output_lens)
        }),
{
    let s = m.session.unwrap();
    crate::session::lemma_total_bound(input_lens);
    crate::session::lemma_total_bound(output_lens);
    let s2 = s.transitioned(target, total(input_lens), total(output_lens));
    assert(s2.wf());
}

/// The master after `n` shutdowns in a row.
pub open spec fn shut_down_times(m: Master, n: nat) -> Master
    decreases n,
{
    if n == 0 {
        m
    } else {
        shut_down_times(m, (n - 1) as nat).shut_down()
    }
}

/// Any number (at least one) of shutdowns in a row leaves the master as one
/// does, with no session: the state reads 0.
pub proof fn lemma_shutdown_idempotent(m: Master, n: nat)
    requires
        n >= 1,
    ensures
        shut_down_times(m, n) == m.shut_down(),
        shut_down_times(m, n).state_code() == 0,
    decreases n,
{
    if n > 1 {
        lemma_shutdown_idempotent(m, (n - 1) as nat);
        assert(shut_down_times(m, n) == shut_down_times(m, (n - 1) as nat).shut_down());
    } else {
        assert(shut_down_times(m, 0) == m);
        assert(shut_down_times(m, 1) == shut_down_times(m, 0).shut_down());
    }
}

/// Initialisation never opens a second engine handle (nor its network
/// thread): once a handle exists it is reused, and once a session is live a
/// further call does nothing and succeeds.
pub proof fn lemma_initialize_idempotent(m: Master, devices: Vec<crate::session::SlaveIdentity>)
    ensures
        m.handle_open ==> m.init_action() != InitAction::OpenHandle,
        m.session.is_some() ==> m.init_action() == InitAction::AlreadyActive,
        (Master { session: Some(Session::fresh(devices)), ..m }).init_action()
            == InitAction::AlreadyActive,
{
}

/// With no toggle bit seen before (a last toggle bit above 1), a full
/// mailbox is new mail at the first read.
pub proof fn lemma_first_full_reading_is_new_mail(
    readings: Seq<Option<u8>>,
    last_toggle: u8,
    v: u8,
)
    requires
        last_toggle > 1,
        readings.len() >= 1,
        readings[0] == Some(v),
        mailbox_full(v),
    ensures
        reading_outcome(Some(v), last_toggle) == Some(MailboxStatus::NewMail),
        poll_outcome(readings, last_toggle, 0) == MailboxStatus::NewMail,
{
}

/// A full mailbox whose toggle bit differs from the last one seen is new
/// mail at the first read.
pub proof fn lemma_toggled_reading_is_new_mail(readings: Seq<Option<u8>>, last_toggle: u8, v: u8)
    requires
        last_toggle <= 1,
        readings.len() >= 1,
        readings[0] == Some(v),
        mailbox_full(v),
        toggle_bit(v) != last_toggle,
    ensures
        poll_outcome(readings, last_toggle, 0) == MailboxStatus::NewMail,
{
}

/// A read showing a full mailbox with the toggle bit last seen.
pub open spec fn stuck_reading(reading: Option<u8>, last_toggle: u8) -> bool {
    match reading {
        Some(v) => mailbox_full(v) && toggle_bit(v) == last_toggle,
        None => false,
    }
}

/// A mailbox stuck full with the toggle bit last seen, read after read, wears
/// out the attempts: the answer is `RetryExhausted`, not `Empty`.
pub proof fn lemma_stuck_mailbox_exhausts(readings: Seq<Option<u8>>, last_toggle: u8)
    requires
        last_toggle <= 1,
        readings.len() >= MAILBOX_ATTEMPTS,
        forall|i: int| 0 <= i < MAILBOX_ATTEMPTS ==> stuck_reading(#[trigger] readings[i], last_toggle),
    ensures
        poll_outcome(readings, last_toggle, 0) == MailboxStatus::RetryExhausted,
{
    assert(poll_outcome(readings, last_toggle, 3) == MailboxStatus::RetryExhausted);
    assert(stuck_reading(readings[2], last_toggle));
    assert(poll_outcome(readings, last_toggle, 2) == MailboxStatus::RetryExhausted);
    assert(stuck_reading(readings[1], last_toggle));
    assert(poll_outcome(readings, last_toggle, 1) == MailboxStatus::RetryExhausted);
    assert(stuck_reading(readings[0], last_toggle));
}

} // verus!
