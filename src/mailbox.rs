//! Mailbox polling: reading a device's mailbox status register, with a
//! toggle bit that tells fresh mail from a frame already seen, and a bounded
//! number of immediate re-reads.
use vstd::prelude::*;
use crate::master::Master;

verus! {

/// Reads of the status register one resilient check may make.
pub const MAILBOX_ATTEMPTS: usize = 3;

/// Answer of a mailbox check.
#[derive(Clone, Copy, Debug, PartialEq, Eq, Structural)]
pub enum MailboxStatus {
    /// The mailbox is not full.
    Empty,
    /// The mailbox is full with mail not seen before.
    NewMail,
    /// Every read failed or showed the same frame again.
    RetryExhausted,
    /// The link is flagged unhealthy, or there is no such device to ask.
    Unavailable,
}

/// Bit 3 of the status register: the mailbox is full.
pub open spec fn mailbox_full(v: u8) -> bool {
    (v / 8) % 2 == 1
}

/// Bit 1 of the status register: the toggle bit.
pub open spec fn toggle_bit(v: u8) -> u8 {
    ((v / 2) % 2) as u8
}

/// What one read of the status register settles, if anything: a failed read,
/// or a full mailbox whose toggle bit equals the last one seen (0 or 1), calls
/// for another read. A last toggle bit above 1 means none was seen yet.
pub open spec fn reading_outcome(reading: Option<u8>, last_toggle: u8) -> Option<MailboxStatus> {
    match reading {
        None => None,
        Some(v) => if !mailbox_full(v) {
            Some(MailboxStatus::Empty)
        } else if last_toggle > 1 || toggle_bit(v) != last_toggle {
            Some(MailboxStatus::NewMail)
        } else {
            None
        },
    }
}

/// Outcome of a check that reads `readings` from attempt `i` on.
pub open spec fn poll_outcome(readings: Seq<Option<u8>>, last_toggle: u8, i: int) -> MailboxStatus
    decreases MAILBOX_ATTEMPTS - i,
{
    if i >= MAILBOX_ATTEMPTS {
        MailboxStatus::RetryExhausted
    } else {
        match reading_outcome(readings[i], last_toggle) {
            Some(s) => s,
            None => poll_outcome(readings, last_toggle, i + 1),
        }
    }
}

/// Whether one status-register value shows a full mailbox (the coarse check).
pub fn mailbox_has_mail(v: u8) -> (r: bool)
    ensures
        r == mailbox_full(v),
{
    assert(((v & 8u8) != 0) == ((v / 8u8) % 2 == 1)) by (bit_vector);
    (v & 0x08) != 0
}

pub fn assess_reading(reading: Option<u8>, last_toggle: u8) -> (r: Option<MailboxStatus>)
    ensures
        r == reading_outcome(reading, last_toggle),
{
    match reading {
        None => None,
        Some(v) => {
            let full = mailbox_has_mail(v);
            assert(((v & 2u8) >> 1u8) == (v / 2u8) % 2) by (bit_vector);
            let toggle = (v & 0x02) >> 1;
            if !full {
                Some(MailboxStatus::Empty)
            } else if last_toggle > 1 || toggle != last_toggle {
                Some(MailboxStatus::NewMail)
            } else {
                None
            }
        },
    }
}

/// One resilient check in progress: the toggle bit last seen and the reads
/// made so far.
pub struct MailboxPoll {
    pub last_toggle: u8,
    pub attempts: usize,
}

impl MailboxPoll {
    pub fn new(last_toggle: u8) -> (r: MailboxPoll)
        ensures
            r.last_toggle == last_toggle,
            r.attempts == 0,
    {
        MailboxPoll { last_toggle, attempts: 0 }
    }

    /// Takes one read of the status register (`None` for a failed read).
    /// Returns the check's answer once it is settled, `None` while another
    /// read is due; the last allowed read settles it either way.
    pub fn on_reading(&mut self, reading: Option<u8>) -> (r: Option<MailboxStatus>)
        requires
            old(self).attempts < MAILBOX_ATTEMPTS,
        ensures
            final(self).last_toggle == old(self).last_toggle,
            final(self).attempts == old(self).attempts + 1,
            r == match reading_outcome(reading, old(self).last_toggle) {
                Some(s) => Some(s),
                None => if final(self).attempts == MAILBOX_ATTEMPTS {
                    Some(MailboxStatus::RetryExhausted)
                } else {
                    None
                },
            },
    {
        self.attempts = self.attempts + 1;
        match assess_reading(reading, self.last_toggle) {
            Some(s) => Some(s),
            None => if self.attempts == MAILBOX_ATTEMPTS {
                Some(MailboxStatus::RetryExhausted)
            } else {
                None
            },
        }
    }
}

/// The resilient check over the reads the status register gives in turn:
/// `Unavailable` on an unhealthy link (no read made), else the first settled
/// answer among the allowed reads, else `RetryExhausted`.
pub fn check_mailbox_resilient(healthy: bool, readings: &Vec<Option<u8>>, last_toggle: u8) -> (r:
    MailboxStatus)
    requires
        readings@.len() >= MAILBOX_ATTEMPTS,
    ensures
        r == if healthy {
            poll_outcome(readings@, last_toggle, 0)
        } else {
            MailboxStatus::Unavailable
        },
{
    if !healthy {
        return MailboxStatus::Unavailable;
    }
    let mut poll = MailboxPoll::new(last_toggle);
    loop
        invariant
            healthy,
            poll.last_toggle == last_toggle,
            poll.attempts < MAILBOX_ATTEMPTS,
            readings@.len() >= MAILBOX_ATTEMPTS,
            poll_outcome(readings@, last_toggle, poll.attempts as int) == poll_outcome(
                readings@,
                last_toggle,
                0,
            ),
        decreases MAILBOX_ATTEMPTS - poll.attempts,
    {
        let reading = readings[poll.attempts];
        let ghost a = poll.attempts as int;
        assert(readings@[a] == reading);
        match poll.on_reading(reading) {
            Some(s) => {
                assert(poll_outcome(readings@, last_toggle, a + 1) == MailboxStatus::RetryExhausted
                    || a + 1 < MAILBOX_ATTEMPTS);
                return s;
            },
            None => {},
        }
    }
}

impl Master {
    /// Whether a mailbox status read of device `ordinal` may be issued: the
    /// link is healthy, a session is live and has the device.
    pub fn mailbox_access(&self, healthy: bool, ordinal: u16) -> (r: bool)
        ensures
            r == (healthy && self.device_error(ordinal).is_none()),
    {
        if !healthy {
            return false;
        }
        self.device_slot(ordinal).is_ok()
    }
}

} // verus!
