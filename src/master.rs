//! The master: the optional live session, the engine handle, and the
//! diagnostic slots, with every operation's decision on them.
use vstd::prelude::*;
use crate::error::EcError;
use crate::session::{
    GroupState, MAX_SUBDEVICES, Session, Sizing, SlaveIdentity, TransitionPlan, engine_steps,
    landing, plan_transition, region_total, regions_ok, sizing, state_code, total,
};

verus! {

/// The last emergency a device reported.
#[derive(Clone, Copy, Debug, PartialEq, Eq, Structural)]
pub struct EmergencyInfo {
    pub slave_index: u16,
    pub error_code: u16,
    pub error_register: u8,
}

/// What `initialize` has to do before a session can be built.
#[derive(Clone, Copy, Debug, PartialEq, Eq, Structural)]
pub enum InitAction {
    /// A session is live: nothing to do, the call succeeds.
    AlreadyActive,
    /// An engine handle exists: enumerate the devices on it.
    Enumerate,
    /// No engine handle yet: open one (and its network thread), then
    /// enumerate.
    OpenHandle,
}

/// Whether `identity` is what `expected` asks for: vendor and product always,
/// the serial number only where the expectation gives one.
pub open spec fn identity_matches(identity: SlaveIdentity, expected: SlaveIdentity) -> bool {
    &&& identity.vendor_id == expected.vendor_id
    &&& identity.product_code == expected.product_code
    &&& (expected.serial_number == 0 || identity.serial_number == expected.serial_number)
}

/// Whether the discovered devices are exactly the expected ones, ordinal by
/// ordinal, and there is at least one expectation.
pub open spec fn topology_match(found: Seq<SlaveIdentity>, expected: Seq<SlaveIdentity>) -> bool {
    &&& expected.len() > 0
    &&& found.len() == expected.len()
    &&& forall|i: int| 0 <= i < expected.len() ==> identity_matches(found[i], expected[i])
}

/// The orchestration state of the master.
pub struct Master {
    /// The live session; absent before initialisation and after shutdown.
    pub session: Option<Session>,
    /// Whether the engine handle (and its network thread) exists; it
    /// outlives sessions.
    pub handle_open: bool,
    /// Cause of the last failure.
    pub last_error: String,
    /// The last emergency recorded.
    pub last_emergency: Option<EmergencyInfo>,
}

impl Master {
    pub open spec fn wf(self) -> bool {
        match self.session {
            Some(s) => s.wf(),
            None => true,
        }
    }

    /// 0 when there is no session, else the code of the group's state.
    pub open spec fn state_code(self) -> u8 {
        match self.session {
            Some(s) => state_code(s.group),
            None => 0,
        }
    }

    pub open spec fn init_action(self) -> InitAction {
        if self.session.is_some() {
            InitAction::AlreadyActive
        } else if self.handle_open {
            InitAction::Enumerate
        } else {
            InitAction::OpenHandle
        }
    }

    /// The master after `shutdown`: no session and no emergency.
    pub open spec fn shut_down(self) -> Master {
        Master { session: None, last_emergency: None, ..self }
    }

    /// The master with `cause` as the last error.
    pub open spec fn failed(self, cause: String) -> Master {
        Master { last_error: cause, ..self }
    }

    /// The devices of the live session, if any.
    pub open spec fn devices(self) -> Seq<SlaveIdentity> {
        match self.session {
            Some(s) => s.devices@,
            None => seq![],
        }
    }

    /// The error of an access to device `ordinal`, if the access cannot be
    /// made.
    pub open spec fn device_error(self, ordinal: u16) -> Option<EcError> {
        match self.session {
            None => Some(EcError::NotInitialized),
            Some(s) => if ordinal < s.devices@.len() {
                None
            } else {
                Some(EcError::DeviceNotFound)
            },
        }
    }

    pub fn new() -> (r: Master)
        ensures
            r.session.is_none(),
            !r.handle_open,
            r.last_error@ == Seq::<char>::empty(),
            r.last_emergency.is_none(),
            r.wf(),
    {
        Master { session: None, handle_open: false, last_error: String::new(), last_emergency: None }
    }

    /// Records `cause` as the last error, overwriting the one before.
    pub fn set_error(&mut self, cause: String)
        ensures
            *final(self) == old(self).failed(cause),
    {
        self.last_error = cause;
    }

    pub fn last_error(&self) -> (r: &String)
        ensures
            r == &self.last_error,
    {
        &self.last_error
    }

    pub fn store_emergency(&mut self, slave_index: u16, error_code: u16, error_register: u8)
        ensures
            *final(self) == (Master {
                last_emergency: Some(EmergencyInfo { slave_index, error_code, error_register }),
                ..*old(self)
            }),
    {
        self.last_emergency = Some(EmergencyInfo { slave_index, error_code, error_register });
    }

    pub fn last_emergency(&self) -> (r: Option<EmergencyInfo>)
        ensures
            r == self.last_emergency,
    {
        self.last_emergency
    }

    /// Clears the session and the last emergency; always succeeds.
    pub fn shutdown(&mut self)
        ensures
            *final(self) == old(self).shut_down(),
    {
        self.session = None;
        self.last_emergency = None;
    }

    /// 0 with no session, else 1 PreOp, 2 SafeOp, 3 Op.
    pub fn current_state(&self) -> (r: u8)
        ensures
            r == self.state_code(),
            r <= 3,
    {
        match &self.session {
            Some(s) => match s.group {
                GroupState::PreOp => 1,
                GroupState::SafeOp => 2,
                GroupState::Op => 3,
            },
            None => 0,
        }
    }

    pub fn begin_initialize(&self) -> (r: InitAction)
        ensures
            r == self.init_action(),
    {
        if self.session.is_some() {
            InitAction::AlreadyActive
        } else if self.handle_open {
            InitAction::Enumerate
        } else {
            InitAction::OpenHandle
        }
    }

    /// Takes the outcome of opening the engine handle: on failure (its frame
    /// storage is already split) records the cause and reports
    /// `ResourceBusy`.
    pub fn record_handle(&mut self, outcome: Result<(), String>) -> (r: Result<(), EcError>)
        ensures
            match outcome {
                Ok(()) => r == Ok::<(), EcError>(()) && *final(self) == (Master {
                    handle_open: true,
                    ..*old(self)
                }),
                Err(cause) => r == Err::<(), EcError>(EcError::ResourceBusy) && *final(self)
                    == old(self).failed(cause),
            },
    {
        match outcome {
            Ok(()) => {
                self.handle_open = true;
                Ok(())
            },
            Err(cause) => {
                self.last_error = cause;
                Err(EcError::ResourceBusy)
            },
        }
    }

    /// Takes the outcome of enumerating the devices: on success a fresh
    /// PreOp session over them is installed; on failure the cause is recorded,
    /// no session is built, and the error is `ProtocolError`.
    pub fn complete_initialize(&mut self, outcome: Result<Vec<SlaveIdentity>, String>) -> (r: Result<
        (),
        EcError,
    >)
        requires
            old(self).wf(),
            outcome matches Ok(d) ==> d@.len() <= MAX_SUBDEVICES,
        ensures
            final(self).wf(),
            match outcome {
                Ok(devices) => r == Ok::<(), EcError>(()) && *final(self) == (Master {
                    session: Some(Session::fresh(devices)),
                    ..*old(self)
                }),
                Err(cause) => r == Err::<(), EcError>(EcError::ProtocolError) && *final(self)
                    == (Master { session: None, ..old(self).failed(cause) }),
            },
    {
        match outcome {
            Ok(devices) => {
                self.session = Some(
                    Session {
                        group: GroupState::PreOp,
                        devices,
                        input_size: 0,
                        output_size: 0,
                        expected_wkc: 0,
                        mailbox_poll_interval_ms: None,
                    },
                );
                Ok(())
            },
            Err(cause) => {
                self.last_error = cause;
                self.session = None;
                Err(EcError::ProtocolError)
            },
        }
    }

    /// The engine operations a request for `target` needs, or
    /// `NotInitialized` without a session.
    pub fn begin_transition(&self, target: u8) -> (r: Result<TransitionPlan, EcError>)
        ensures
            match self.session {
                None => r matches Err(e) && e == EcError::NotInitialized,
                Some(s) => r matches Ok(p) && p.steps@ == engine_steps(s.group, target) && p.landing
                    == landing(s.group, target) && p.sizing == sizing(s.group, target),
            },
    {
        match &self.session {
            None => Err(EcError::NotInitialized),
            Some(s) => Ok(plan_transition(s.group, target)),
        }
    }

    /// Takes the outcome of the engine operations of a request for `target`.
    /// On success the group lands in its new state with the sizes the request
    /// calls for (`input_lens` and `output_lens` are the devices' regions in
    /// the new state, read only when the sizes are summed afresh). On failure
    /// the cause is recorded, the session is left as it was, and the error is
    /// `ProtocolError`.
    pub fn complete_transition(
        &mut self,
        target: u8,
        outcome: Result<(), String>,
        input_lens: &Vec<usize>,
        output_lens: &Vec<usize>,
    ) -> (r: Result<(), EcError>)
        requires
            old(self).wf(),
            old(self).session.is_some(),
            regions_ok(input_lens@),
            regions_ok(output_lens@),
        ensures
            final(self).wf(),
            match outcome {
                Ok(()) => r == Ok::<(), EcError>(()) && *final(self) == (Master {
                    session: Some(
                        old(self).session.unwrap().transitioned(
                            target,
                            total(input_lens@),
                            total(output_lens@),
                        ),
                    ),
                    ..*old(self)
                }),
                Err(cause) => r == Err::<(), EcError>(EcError::ProtocolError) && *final(self)
                    == old(self).failed(cause),
            },
    {
        match outcome {
            Err(cause) => {
                self.last_error = cause;
                Err(EcError::ProtocolError)
            },
            Ok(()) => {
                let plan = plan_transition(self.session.as_ref().unwrap().group, target);
                let in_total = region_total(input_lens);
                let out_total = region_total(output_lens);
                let mut s = self.session.take().unwrap();
                s.group = plan.landing;
                match plan.sizing {
                    Sizing::Keep => {},
                    Sizing::Reset => {
                        s.input_size = 0;
                        s.output_size = 0;
                        s.expected_wkc = 0;
                    },
                    Sizing::Recompute => {
                        s.input_size = in_total;
                        s.output_size = out_total;
                        s.expected_wkc = s.devices.len() as u16;
                    },
                }
                self.session = Some(s);
                Ok(())
            },
        }
    }

    /// Compares the discovered devices with the expected ones.
    pub fn topology_matches(&self, expected: &Vec<SlaveIdentity>) -> (r: bool)
        ensures
            r == (self.session.is_some() && topology_match(self.devices(), expected@)),
    {
        match &self.session {
            None => false,
            Some(s) => {
                if expected.len() == 0 || s.devices.len() != expected.len() {
                    return false;
                }
                let mut i: usize = 0;
                while i < expected.len()
                    invariant
                        i <= expected@.len(),
                        s.devices@.len() == expected@.len(),
                        self.devices() == s.devices@,
                        forall|k: int|
                            0 <= k < i ==> identity_matches(s.devices@[k], expected@[k]),
                    decreases expected@.len() - i,
                {
                    let d = s.devices[i];
                    let e = expected[i];
                    if d.vendor_id != e.vendor_id || d.product_code != e.product_code {
                        assert(!identity_matches(s.devices@[i as int], expected@[i as int]));
                        return false;
                    }
                    if e.serial_number != 0 && d.serial_number != e.serial_number {
                        assert(!identity_matches(s.devices@[i as int], expected@[i as int]));
                        return false;
                    }
                    i = i + 1;
                }
                true
            },
        }
    }

    /// The slot of device `ordinal` in the live session.
    pub fn device_slot(&self, ordinal: u16) -> (r: Result<usize, EcError>)
        ensures
            match self.device_error(ordinal) {
                Some(e) => r == Err::<usize, EcError>(e),
                None => r == Ok::<usize, EcError>(ordinal as usize),
            },
    {
        match &self.session {
            None => Err(EcError::NotInitialized),
            Some(s) => if (ordinal as usize) < s.devices.len() {
                Ok(ordinal as usize)
            } else {
                Err(EcError::DeviceNotFound)
            },
        }
    }

    /// Sets (interval > 0) or clears (interval 0) the mailbox polling
    /// interval of the live session.
    pub fn configure_mailbox_polling(&mut self, interval_ms: u32) -> (r: Result<(), EcError>)
        requires
            old(self).wf(),
        ensures
            final(self).wf(),
            match old(self).session {
                None => r == Err::<(), EcError>(EcError::NotInitialized) && *final(self) == *old(
                    self,
                ),
                Some(s) => r == Ok::<(), EcError>(()) && *final(self) == (Master {
                    session: Some(
                        Session {
                            mailbox_poll_interval_ms: if interval_ms == 0 {
                                None
                            } else {
                                Some(interval_ms)
                            },
                            ..s
                        },
                    ),
                    ..*old(self)
                }),
            },
    {
        match self.session.take() {
            None => Err(EcError::NotInitialized),
            Some(mut s) => {
                s.mailbox_poll_interval_ms = if interval_ms == 0 {
                    None
                } else {
                    Some(interval_ms)
                };
                self.session = Some(s);
                Ok(())
            },
        }
    }

    /// Bytes of the process-data image in use: outputs then inputs; 0 with
    /// no session.
    pub fn pdi_total_size(&self) -> (r: u32)
        requires
            self.wf(),
        ensures
            r == match self.session {
                Some(s) => s.pdi_size(),
                None => 0,
            },
    {
        match &self.session {
            None => 0,
            Some(s) => (s.input_size + s.output_size) as u32,
        }
    }
}

} // verus!
