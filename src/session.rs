//! The session: the group's lifecycle state, the discovered devices and the
//! process-data sizing, with the transition rules between the states.
use vstd::prelude::*;

verus! {

/// Most devices one group can hold.
pub const MAX_SUBDEVICES: usize = 128;

/// Capacity of the shared process-data image, in bytes.
pub const MAX_PDI: usize = 4096;

/// Lifecycle state of the group of discovered devices.
#[derive(Clone, Copy, Debug, PartialEq, Eq, Structural)]
pub enum GroupState {
    PreOp,
    SafeOp,
    Op,
}

/// Identity of a device.
#[derive(Clone, Copy, Debug, PartialEq, Eq, Structural)]
pub struct SlaveIdentity {
    pub vendor_id: u32,
    pub product_code: u32,
    pub revision: u32,
    pub serial_number: u32,
}

/// One operation of the engine that moves the whole group between states.
#[derive(Clone, Copy, Debug, PartialEq, Eq, Structural)]
pub enum EngineStep {
    IntoSafeOp,
    IntoOp,
    IntoPreOp,
}

/// What a transition does to the input/output sizes.
#[derive(Clone, Copy, Debug, PartialEq, Eq, Structural)]
pub enum Sizing {
    /// The sizes carry over.
    Keep,
    /// The sizes are summed afresh over the devices' regions.
    Recompute,
    /// The sizes and the expected working counter drop to zero.
    Reset,
}

/// Code of a lifecycle state: 1 PreOp, 2 SafeOp, 3 Op.
pub open spec fn state_code(g: GroupState) -> u8 {
    match g {
        GroupState::PreOp => 1,
        GroupState::SafeOp => 2,
        GroupState::Op => 3,
    }
}

/// The state a request for `target` lands the group in from `current`:
/// 0 and 1 land in PreOp, 2 in SafeOp, 3 in Op from SafeOp or Op; any other
/// request leaves the group where it is.
pub open spec fn landing(current: GroupState, target: u8) -> GroupState {
    if target <= 1 {
        GroupState::PreOp
    } else if target == 2 {
        GroupState::SafeOp
    } else if target == 3 && current != GroupState::PreOp {
        GroupState::Op
    } else {
        current
    }
}

/// The engine operations that carry the group from `current` to
/// `landing(current, target)`, in order.
pub open spec fn engine_steps(current: GroupState, target: u8) -> Seq<EngineStep> {
    if target <= 1 {
        match current {
            GroupState::PreOp => seq![],
            GroupState::SafeOp => seq![EngineStep::IntoPreOp],
            GroupState::Op => seq![EngineStep::IntoSafeOp, EngineStep::IntoPreOp],
        }
    } else if target == 2 {
        match current {
            GroupState::SafeOp => seq![],
            _ => seq![EngineStep::IntoSafeOp],
        }
    } else if target == 3 && current == GroupState::SafeOp {
        seq![EngineStep::IntoOp]
    } else {
        seq![]
    }
}

/// What the request does to the sizes: entering SafeOp from PreOp sums them,
/// landing in PreOp clears them, anything else keeps them.
pub open spec fn sizing(current: GroupState, target: u8) -> Sizing {
    if target <= 1 {
        Sizing::Reset
    } else if target == 2 && current == GroupState::PreOp {
        Sizing::Recompute
    } else {
        Sizing::Keep
    }
}

/// The engine operations, landing state and sizing of one state request.
pub struct TransitionPlan {
    pub steps: Vec<EngineStep>,
    pub landing: GroupState,
    pub sizing: Sizing,
}

pub fn plan_transition(current: GroupState, target: u8) -> (r: TransitionPlan)
    ensures
        r.steps@ == engine_steps(current, target),
        r.landing == landing(current, target),
        r.sizing == sizing(current, target),
{
    let mut steps: Vec<EngineStep> = Vec::new();
    if target <= 1 {
        match current {
            GroupState::PreOp => {},
            GroupState::SafeOp => {
                steps.push(EngineStep::IntoPreOp);
            },
            GroupState::Op => {
                steps.push(EngineStep::IntoSafeOp);
                steps.push(EngineStep::IntoPreOp);
            },
        }
        proof {
            assert(steps@ =~= engine_steps(current, target));
        }
        TransitionPlan { steps, landing: GroupState::PreOp, sizing: Sizing::Reset }
    } else if target == 2 {
        let sz = match current {
            GroupState::PreOp => Sizing::Recompute,
            _ => Sizing::Keep,
        };
        match current {
            GroupState::SafeOp => {},
            _ => {
                steps.push(EngineStep::IntoSafeOp);
            },
        }
        proof {
            assert(steps@ =~= engine_steps(current, target));
        }
        TransitionPlan { steps, landing: GroupState::SafeOp, sizing: sz }
    } else if target == 3 && current != GroupState::PreOp {
        match current {
            GroupState::SafeOp => {
                steps.push(EngineStep::IntoOp);
            },
            _ => {},
        }
        proof {
            assert(steps@ =~= engine_steps(current, target));
        }
        TransitionPlan { steps, landing: GroupState::Op, sizing: Sizing::Keep }
    } else {
        proof {
            assert(steps@ =~= engine_steps(current, target));
        }
        TransitionPlan { steps, landing: current, sizing: Sizing::Keep }
    }
}

/// Sum of region lengths.
pub open spec fn total(lens: Seq<usize>) -> int
    decreases lens.len(),
{
    if lens.len() == 0 {
        0
    } else {
        total(lens.drop_last()) + lens.last()
    }
}

/// Lengths of device regions as the engine reports them: one per device at
/// most, each inside the process-data image.
pub open spec fn regions_ok(lens: Seq<usize>) -> bool {
    lens.len() <= MAX_SUBDEVICES && forall|i: int| 0 <= i < lens.len() ==> lens[i] <= MAX_PDI
}

/// The sum of region lengths, each within the image, is at most one image
/// per region.
pub proof fn lemma_total_bound(lens: Seq<usize>)
    requires
        forall|i: int| 0 <= i < lens.len() ==> lens[i] <= MAX_PDI,
    ensures
        0 <= total(lens) <= lens.len() * MAX_PDI,
    decreases lens.len(),
{
    if lens.len() > 0 {
        lemma_total_bound(lens.drop_last());
    }
}

/// Sum of the lengths of the devices' regions.
pub fn region_total(lens: &Vec<usize>) -> (r: usize)
    requires
        regions_ok(lens@),
    ensures
        r == total(lens@),
        r <= MAX_SUBDEVICES * MAX_PDI,
{
    let mut sum: usize = 0;
    let mut i: usize = 0;
    while i < lens.len()
        invariant
            regions_ok(lens@),
            i <= lens@.len(),
            sum == total(lens@.subrange(0, i as int)),
            sum <= i * MAX_PDI,
        decreases lens@.len() - i,
    {
        assert(lens@.subrange(0, i + 1).drop_last() =~= lens@.subrange(0, i as int));
        sum = sum + lens[i];
        i = i + 1;
    }
    assert(lens@.subrange(0, i as int) =~= lens@);
    sum
}

/// A live session: the group's state, the devices found when it was built,
/// and the sizing of the process-data image.
pub struct Session {
    pub group: GroupState,
    pub devices: Vec<SlaveIdentity>,
    pub input_size: usize,
    pub output_size: usize,
    pub expected_wkc: u16,
    pub mailbox_poll_interval_ms: Option<u32>,
}

impl Session {
    /// At most one group's worth of devices; no sizes in PreOp; sizes that
    /// fit the devices' regions.
    pub open spec fn wf(self) -> bool {
        &&& self.devices@.len() <= MAX_SUBDEVICES
        &&& self.group == GroupState::PreOp ==> self.input_size == 0 && self.output_size == 0
            && self.expected_wkc == 0
        &&& self.input_size <= MAX_SUBDEVICES * MAX_PDI
        &&& self.output_size <= MAX_SUBDEVICES * MAX_PDI
    }

    /// A session just built over `devices`: PreOp, no sizes, no polling.
    pub open spec fn fresh(devices: Vec<SlaveIdentity>) -> Session {
        Session {
            group: GroupState::PreOp,
            devices,
            input_size: 0,
            output_size: 0,
            expected_wkc: 0,
            mailbox_poll_interval_ms: None,
        }
    }

    /// Total process-data size: outputs then inputs.
    pub open spec fn pdi_size(self) -> int {
        self.input_size + self.output_size
    }

    /// The session after a successful request for `target`, where
    /// `input_total` and `output_total` are the summed region lengths read
    /// once the group is in its new state.
    pub open spec fn transitioned(self, target: u8, input_total: int, output_total: int) -> Session {
        let g = landing(self.group, target);
        match sizing(self.group, target) {
            Sizing::Keep => Session { group: g, ..self },
            Sizing::Reset => Session {
                group: g,
                input_size: 0,
                output_size: 0,
                expected_wkc: 0,
                ..self
            },
            Sizing::Recompute => Session {
                group: g,
                input_size: input_total as usize,
                output_size: output_total as usize,
                expected_wkc: self.devices@.len() as u16,
                ..self
            },
        }
    }
}

} // verus!
