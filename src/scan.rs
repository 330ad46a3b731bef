//! Discovery: the records of a scan snapshot, the walk over a device's
//! CANopen PDO assignment and mapping objects, the decoding of what it reads,
//! and the fallback to PDOs described in EEPROM.
use vstd::prelude::*;
use vstd::string::StringSliceAdditionalSpecFns;
use crate::encoding::{
    eeprom_entry_name, eeprom_entry_name_text, entry_name, entry_name_text, fixed_name,
    string_to_fixed_bytes,
};
use crate::error::EcError;
use crate::master::Master;
use crate::session::SlaveIdentity;

verus! {

/// PDO assignment object of sync manager 2 (outputs).
pub const RX_PDO_ASSIGN: u16 = 0x1C12;

/// PDO assignment object of sync manager 3 (inputs).
pub const TX_PDO_ASSIGN: u16 = 0x1C13;

/// Mailbox protocol bit: CANopen over EtherCAT.
pub const PROTOCOL_COE: u16 = 0x01;

/// Summary of a discovered device.
#[derive(Clone, Copy, Debug)]
pub struct FfiSlaveInfo {
    pub identity: SlaveIdentity,
    pub name: [u8; 64],
    pub configured_address: u16,
    pub alias_address: u16,
    pub port_count: u8,
    pub _padding: [u8; 1],
    /// Bitmask: 0x01 CoE, 0x02 FoE, 0x04 EoE, 0x08 SoE.
    pub mailbox_protocols: u16,
    /// 1 if the device answered the distributed-clock probe, else 0.
    pub dc_supported: u8,
    pub _padding2: [u8; 1],
}

/// Summary of a PDO.
#[derive(Clone, Copy, Debug)]
pub struct FfiPdoInfo {
    pub index: u16,
    pub num_entries: u8,
    /// 2: outputs, 3: inputs.
    pub sync_manager: u8,
    pub name: [u8; 64],
}

/// Summary of one entry of a PDO.
#[derive(Clone, Copy, Debug)]
pub struct FfiPdoEntryInfo {
    pub index: u16,
    pub sub_index: u8,
    pub bit_len: u8,
    pub data_type: u16,
    pub name: [u8; 64],
}

pub struct DiscoveredEntry {
    pub info: FfiPdoEntryInfo,
}

pub struct DiscoveredPdo {
    pub info: FfiPdoInfo,
    pub entries: Vec<DiscoveredEntry>,
}

pub struct DiscoveredSlave {
    pub info: FfiSlaveInfo,
    pub pdos: Vec<DiscoveredPdo>,
}

/// A scan snapshot: the devices one scan found, in ordinal order.
pub struct ScanContext {
    pub slaves: Vec<DiscoveredSlave>,
}

/// A field of 64 zero bytes.
pub open spec fn zero_name() -> Seq<u8> {
    Seq::new(64, |i: int| 0u8)
}

/// Data-type tag of a mapped entry, inferred from its bit length: BOOL,
/// UINT8, UINT16, UINT32, 64-bit, else unknown (0).
pub open spec fn coe_data_type_spec(bit_len: u8) -> u16 {
    if bit_len == 1 {
        0x0001
    } else if bit_len == 8 {
        0x0005
    } else if bit_len == 16 {
        0x0006
    } else if bit_len == 32 {
        0x0007
    } else if bit_len == 64 {
        0x0015
    } else {
        0x0000
    }
}

/// Data-type tag of an EEPROM PDO, from its total bit length: BOOL for one
/// bit, else the smallest of UINT8, UINT16, UINT32 that holds it, else
/// unknown (0).
pub open spec fn eeprom_data_type_spec(bit_len: u16) -> u16 {
    if bit_len == 1 {
        0x0001
    } else if bit_len <= 8 {
        0x0005
    } else if bit_len <= 16 {
        0x0006
    } else if bit_len <= 32 {
        0x0007
    } else {
        0x0000
    }
}

pub fn coe_data_type(bit_len: u8) -> (r: u16)
    ensures
        r == coe_data_type_spec(bit_len),
{
    match bit_len {
        1 => 0x0001,
        8 => 0x0005,
        16 => 0x0006,
        32 => 0x0007,
        64 => 0x0015,
        _ => 0x0000,
    }
}

pub fn eeprom_data_type(bit_len: u16) -> (r: u16)
    ensures
        r == eeprom_data_type_spec(bit_len),
{
    if bit_len == 1 {
        0x0001
    } else if bit_len <= 8 {
        0x0005
    } else if bit_len <= 16 {
        0x0006
    } else if bit_len <= 32 {
        0x0007
    } else {
        0x0000
    }
}

/// Whether `e` is the entry a PDO mapping word `m` describes: object index
/// in the high 16 bits, sub-index in the next 8, bit length in the low 8.
pub open spec fn entry_of_mapping(e: FfiPdoEntryInfo, m: u32) -> bool {
    &&& e.index == m / 0x10000
    &&& e.sub_index == (m / 0x100) % 0x100
    &&& e.bit_len == m % 0x100
    &&& e.data_type == coe_data_type_spec(e.bit_len)
    &&& e.name@ == fixed_name(entry_name_text(e.index, e.sub_index))
}

pub fn decode_pdo_mapping(mapping: u32) -> (r: FfiPdoEntryInfo)
    ensures
        entry_of_mapping(r, mapping),
{
    let index = (mapping / 0x10000) as u16;
    let sub_index = ((mapping / 0x100) % 0x100) as u8;
    let bit_len = (mapping % 0x100) as u8;
    FfiPdoEntryInfo {
        index,
        sub_index,
        bit_len,
        data_type: coe_data_type(bit_len),
        name: entry_name(index, sub_index),
    }
}

/// Whether `p` is the PDO `index` of sync manager `sm` whose mapping words
/// are `mappings`, in order.
pub open spec fn pdo_of_mappings(p: DiscoveredPdo, index: u16, sm: u8, mappings: Seq<u32>) -> bool {
    &&& p.info.index == index
    &&& p.info.sync_manager == sm
    &&& p.info.num_entries == mappings.len()
    &&& p.info.name@ == zero_name()
    &&& p.entries@.len() == mappings.len()
    &&& forall|k: int|
        #![trigger p.entries@[k]]
        0 <= k < mappings.len() ==> entry_of_mapping(p.entries@[k].info, mappings[k])
}

/// The PDO `index` of sync manager `sm` with the entries its mapping words
/// describe.
pub fn coe_pdo(index: u16, sm: u8, mappings: &Vec<u32>) -> (r: DiscoveredPdo)
    requires
        mappings@.len() <= 255,
    ensures
        pdo_of_mappings(r, index, sm, mappings@),
{
    let mut entries: Vec<DiscoveredEntry> = Vec::new();
    let mut k: usize = 0;
    while k < mappings.len()
        invariant
            k <= mappings@.len(),
            entries@.len() == k,
            forall|e: int|
                #![trigger entries@[e]]
                0 <= e < k ==> entry_of_mapping(entries@[e].info, mappings@[e]),
        decreases mappings@.len() - k,
    {
        entries.push(DiscoveredEntry { info: decode_pdo_mapping(mappings[k]) });
        k = k + 1;
    }
    let name = [0u8; 64];
    assert(name@ =~= zero_name());
    DiscoveredPdo {
        info: FfiPdoInfo { index, num_entries: mappings.len() as u8, sync_manager: sm, name },
        entries,
    }
}

/// Whether `p` is the PDO synthesised for the `n`-th EEPROM PDO of one
/// direction, `bit_len` bits long: a single entry, with indices counted from
/// 0x1A00 / 0x6000 for inputs (sync manager 3) and 0x1600 / 0x7000 for
/// outputs (sync manager 2).
pub open spec fn eeprom_pdo_spec(p: DiscoveredPdo, is_output: bool, n: int, bit_len: u16) -> bool {
    &&& p.info.index == (if is_output { 0x1600 + n } else { 0x1A00 + n })
    &&& p.info.num_entries == 1
    &&& p.info.sync_manager == (if is_output { 2u8 } else { 3u8 })
    &&& p.info.name@ == zero_name()
    &&& p.entries@.len() == 1
    &&& p.entries@[0].info.index == (if is_output { 0x7000 + n } else { 0x6000 + n })
    &&& p.entries@[0].info.sub_index == 0
    &&& p.entries@[0].info.bit_len == bit_len % 0x100
    &&& p.entries@[0].info.data_type == eeprom_data_type_spec(bit_len)
    &&& p.entries@[0].info.name@ == fixed_name(eeprom_entry_name_text(is_output, n as nat))
}

fn eeprom_pdo(is_output: bool, n: u16, bit_len: u16) -> (r: DiscoveredPdo)
    requires
        (if is_output { 0x7000int } else { 0x6000int }) + n < 0x10000,
    ensures
        eeprom_pdo_spec(r, is_output, n as int, bit_len),
{
    let entry = FfiPdoEntryInfo {
        index: if is_output {
            0x7000 + n
        } else {
            0x6000 + n
        },
        sub_index: 0,
        bit_len: (bit_len % 0x100) as u8,
        data_type: eeprom_data_type(bit_len),
        name: eeprom_entry_name(is_output, n as u32),
    };
    let mut entries: Vec<DiscoveredEntry> = Vec::new();
    entries.push(DiscoveredEntry { info: entry });
    let name = [0u8; 64];
    assert(name@ =~= zero_name());
    DiscoveredPdo {
        info: FfiPdoInfo {
            index: if is_output {
                0x1600 + n
            } else {
                0x1A00 + n
            },
            num_entries: 1,
            sync_manager: if is_output {
                2
            } else {
                3
            },
            name,
        },
        entries,
    }
}

/// The PDOs synthesised from the EEPROM's descriptions: the inputs' in
/// order, then the outputs'.
pub fn eeprom_pdos(input_bit_lens: &Vec<u16>, output_bit_lens: &Vec<u16>) -> (r: Vec<DiscoveredPdo>)
    requires
        0x6000 + input_bit_lens@.len() <= 0x10000,
        0x7000 + output_bit_lens@.len() <= 0x10000,
    ensures
        r@.len() == input_bit_lens@.len() + output_bit_lens@.len(),
        forall|k: int|
            #![trigger r@[k]]
            0 <= k < input_bit_lens@.len() ==> eeprom_pdo_spec(r@[k], false, k, input_bit_lens@[k]),
        forall|k: int|
            #![trigger output_bit_lens@[k]]
            0 <= k < output_bit_lens@.len() ==> eeprom_pdo_spec(
                r@[input_bit_lens@.len() + k],
                true,
                k,
                output_bit_lens@[k],
            ),
{
    let mut r: Vec<DiscoveredPdo> = Vec::new();
    let mut k: usize = 0;
    while k < input_bit_lens.len()
        invariant
            k <= input_bit_lens@.len(),
            0x6000 + input_bit_lens@.len() <= 0x10000,
            r@.len() == k,
            forall|e: int|
                #![trigger r@[e]]
                0 <= e < k ==> eeprom_pdo_spec(r@[e], false, e, input_bit_lens@[e]),
        decreases input_bit_lens@.len() - k,
    {
        r.push(eeprom_pdo(false, k as u16, input_bit_lens[k]));
        k = k + 1;
    }
    let base = input_bit_lens.len();
    let mut k: usize = 0;
    while k < output_bit_lens.len()
        invariant
            k <= output_bit_lens@.len(),
            base == input_bit_lens@.len(),
            0x7000 + output_bit_lens@.len() <= 0x10000,
            r@.len() == base + k,
            forall|e: int|
                #![trigger r@[e]]
                0 <= e < base ==> eeprom_pdo_spec(r@[e], false, e, input_bit_lens@[e]),
            forall|e: int|
                #![trigger output_bit_lens@[e]]
                0 <= e < k ==> eeprom_pdo_spec(r@[base + e], true, e, output_bit_lens@[e]),
        decreases output_bit_lens@.len() - k,
    {
        r.push(eeprom_pdo(true, k as u16, output_bit_lens[k]));
        k = k + 1;
    }
    r
}

/// Width of a service-data-object read.
#[derive(Clone, Copy, Debug, PartialEq, Eq, Structural)]
pub enum SdoWidth {
    U8,
    U16,
    U32,
}

/// One service-data-object read the walk asks for.
#[derive(Clone, Copy, Debug, PartialEq, Eq, Structural)]
pub struct SdoQuery {
    pub index: u16,
    pub sub_index: u8,
    pub width: SdoWidth,
}

/// Where the walk over the PDO objects stands.
#[derive(Clone, Copy, Debug, PartialEq, Eq, Structural)]
pub enum WalkStage {
    /// Reading how many PDOs the current sync manager has assigned.
    AssignCount,
    /// Reading the index of assigned PDO `i`.
    AssignedPdo,
    /// Reading how many entries the current PDO maps.
    EntryCount,
    /// Reading mapping word `j` of the current PDO.
    Mapping,
    Done,
}

/// The state of a walk, as values.
pub struct WalkView {
    pub stage: WalkStage,
    /// 0: sync manager 2's assignment, 1: sync manager 3's.
    pub slot: u8,
    pub count: u8,
    pub i: u8,
    pub pdo_index: u16,
    pub entry_count: u8,
    pub j: u8,
    /// Mapping words read so far for the current PDO.
    pub mappings: Seq<u32>,
    /// PDOs completed: index, sync manager, mapping words.
    pub found: Seq<(u16, u8, Seq<u32>)>,
    /// Whether an assignment object answered with PDOs.
    pub coe: bool,
}

/// Assignment object read in `slot`.
pub open spec fn assign_object(slot: u8) -> u16 {
    if slot == 0 {
        RX_PDO_ASSIGN
    } else {
        TX_PDO_ASSIGN
    }
}

/// Sync manager whose PDOs `slot` walks.
pub open spec fn sync_manager_of(slot: u8) -> u8 {
    if slot == 0 {
        2
    } else {
        3
    }
}

impl WalkView {
    pub open spec fn wf(self) -> bool {
        &&& self.slot <= 1
        &&& (self.stage == WalkStage::AssignedPdo || self.stage == WalkStage::EntryCount
            || self.stage == WalkStage::Mapping) ==> 1 <= self.i <= self.count
        &&& self.stage == WalkStage::Mapping ==> 1 <= self.j <= self.entry_count
            && self.mappings.len() < self.j
        &&& self.stage != WalkStage::Mapping ==> self.mappings.len() == 0
        &&& forall|k: int| 0 <= k < self.found.len() ==> (#[trigger] self.found[k]).2.len() <= 255
    }

    /// The read the walk needs next, none once it is done.
    pub open spec fn query(self) -> Option<SdoQuery> {
        match self.stage {
            WalkStage::AssignCount => Some(
                SdoQuery { index: assign_object(self.slot), sub_index: 0, width: SdoWidth::U8 },
            ),
            WalkStage::AssignedPdo => Some(
                SdoQuery {
                    index: assign_object(self.slot),
                    sub_index: self.i,
                    width: SdoWidth::U16,
                },
            ),
            WalkStage::EntryCount => Some(
                SdoQuery { index: self.pdo_index, sub_index: 0, width: SdoWidth::U8 },
            ),
            WalkStage::Mapping => Some(
                SdoQuery { index: self.pdo_index, sub_index: self.j, width: SdoWidth::U32 },
            ),
            WalkStage::Done => None,
        }
    }

    /// On to the next sync manager's assignment, or done after the second.
    pub open spec fn next_slot(self) -> WalkView {
        if self.slot == 0 {
            WalkView { stage: WalkStage::AssignCount, slot: 1, ..self }
        } else {
            WalkView { stage: WalkStage::Done, ..self }
        }
    }

    /// On to the next assigned PDO, or the next sync manager after the last.
    pub open spec fn next_assigned(self) -> WalkView {
        if self.i >= self.count {
            self.next_slot()
        } else {
            WalkView { stage: WalkStage::AssignedPdo, i: (self.i + 1) as u8, ..self }
        }
    }

    /// The current PDO completed with the mapping words read for it.
    pub open spec fn close_pdo(self) -> WalkView {
        WalkView {
            found: self.found.push((self.pdo_index, sync_manager_of(self.slot), self.mappings)),
            mappings: seq![],
            ..self
        }.next_assigned()
    }

    /// On to the next mapping word, or the PDO completed after the last.
    pub open spec fn next_mapping(self) -> WalkView {
        if self.j >= self.entry_count {
            self.close_pdo()
        } else {
            WalkView { j: (self.j + 1) as u8, ..self }
        }
    }

    /// The walk after the answer to its query: the value read, or `None` for
    /// a read that failed. A failed or zero count skips what it counts; a
    /// failed PDO index skips that PDO; a failed entry count leaves the PDO
    /// without entries; a failed mapping read leaves that entry out.
    pub open spec fn step(self, answer: Option<u32>) -> WalkView {
        match self.stage {
            WalkStage::AssignCount => match answer {
                Some(c) => if (c as u8) > 0 {
                    WalkView {
                        stage: WalkStage::AssignedPdo,
                        count: c as u8,
                        i: 1,
                        coe: true,
                        ..self
                    }
                } else {
                    self.next_slot()
                },
                None => self.next_slot(),
            },
            WalkStage::AssignedPdo => match answer {
                Some(p) => WalkView { stage: WalkStage::EntryCount, pdo_index: p as u16, ..self },
                None => self.next_assigned(),
            },
            WalkStage::EntryCount => match answer {
                Some(n) => if (n as u8) > 0 {
                    WalkView { stage: WalkStage::Mapping, entry_count: n as u8, j: 1, ..self }
                } else {
                    self.close_pdo()
                },
                None => self.close_pdo(),
            },
            WalkStage::Mapping => match answer {
                Some(m) => WalkView { mappings: self.mappings.push(m), ..self }.next_mapping(),
                None => self.next_mapping(),
            },
            WalkStage::Done => self,
        }
    }
}

/// Reads one assigned PDO can take at most: its index, its entry count, and
/// up to 255 mapping words, with room to spare.
pub open spec fn pdo_reads() -> int {
    260
}

/// Reads one sync manager's walk can take at most.
pub open spec fn slot_reads() -> int {
    1 + 255 * pdo_reads()
}

impl WalkView {
    /// A bound on the reads the walk still needs.
    pub open spec fn reads_left(self) -> int {
        let within = match self.stage {
            WalkStage::AssignCount => slot_reads(),
            WalkStage::AssignedPdo => (self.count - self.i + 1) * pdo_reads(),
            WalkStage::EntryCount => (self.count - self.i) * pdo_reads() + pdo_reads() - 1,
            WalkStage::Mapping => (self.count - self.i) * pdo_reads() + 256 - self.j,
            WalkStage::Done => 0,
        };
        if self.stage == WalkStage::Done {
            0
        } else if self.slot == 0 {
            slot_reads() + 1 + within
        } else {
            within
        }
    }
}

/// Every answer, whatever it is, brings an unfinished walk closer to its
/// end, and the bound never goes below zero: the walk ends after a bounded
/// number of reads.
pub proof fn lemma_walk_progress(w: WalkView, answer: Option<u32>)
    requires
        w.wf(),
        w.stage != WalkStage::Done,
    ensures
        0 <= w.step(answer).reads_left() < w.reads_left(),
        w.step(answer).wf(),
{
    lemma_walk_step_wf(w, answer);
}

proof fn lemma_walk_step_wf(w: WalkView, answer: Option<u32>)
    requires
        w.wf(),
    ensures
        w.step(answer).wf(),
{
    let n = w.step(answer);
    assert forall|k: int| 0 <= k < n.found.len() implies (#[trigger] n.found[k]).2.len() <= 255 by {
        if k < w.found.len() {
            assert(w.found[k].2.len() <= 255);
        }
    }
}

/// A walk over one device's PDO assignment and mapping objects, one read at
/// a time: sync manager 2's assignment, then sync manager 3's.
pub struct PdoWalk {
    pub stage: WalkStage,
    pub slot: u8,
    pub count: u8,
    pub i: u8,
    pub pdo_index: u16,
    pub entry_count: u8,
    pub j: u8,
    pub mappings: Vec<u32>,
    pub found_index: Vec<u16>,
    pub found_sm: Vec<u8>,
    pub found_mappings: Vec<Vec<u32>>,
    pub coe: bool,
}

impl View for PdoWalk {
    type V = WalkView;

    open spec fn view(&self) -> WalkView {
        WalkView {
            stage: self.stage,
            slot: self.slot,
            count: self.count,
            i: self.i,
            pdo_index: self.pdo_index,
            entry_count: self.entry_count,
            j: self.j,
            mappings: self.mappings@,
            found: Seq::new(
                self.found_index@.len(),
                |k: int| (self.found_index@[k], self.found_sm@[k], self.found_mappings@[k]@),
            ),
            coe: self.coe,
        }
    }
}

impl PdoWalk {
    pub open spec fn wf(&self) -> bool {
        &&& self.found_sm@.len() == self.found_index@.len()
        &&& self.found_mappings@.len() == self.found_index@.len()
        &&& self@.wf()
    }

    pub fn new() -> (r: PdoWalk)
        ensures
            r.wf(),
            r@.stage == WalkStage::AssignCount,
            r@.slot == 0,
            r@.found.len() == 0,
            r@.mappings.len() == 0,
            !r@.coe,
    {
        let r = PdoWalk {
            stage: WalkStage::AssignCount,
            slot: 0,
            count: 0,
            i: 0,
            pdo_index: 0,
            entry_count: 0,
            j: 0,
            mappings: Vec::new(),
            found_index: Vec::new(),
            found_sm: Vec::new(),
            found_mappings: Vec::new(),
            coe: false,
        };
        assert(r@.found =~= Seq::<(u16, u8, Seq<u32>)>::empty());
        r
    }

    pub fn next_query(&self) -> (r: Option<SdoQuery>)
        ensures
            r == self@.query(),
    {
        let object = if self.slot == 0 {
            RX_PDO_ASSIGN
        } else {
            TX_PDO_ASSIGN
        };
        match self.stage {
            WalkStage::AssignCount => Some(SdoQuery { index: object, sub_index: 0, width: SdoWidth::U8 }),
            WalkStage::AssignedPdo => Some(
                SdoQuery { index: object, sub_index: self.i, width: SdoWidth::U16 },
            ),
            WalkStage::EntryCount => Some(
                SdoQuery { index: self.pdo_index, sub_index: 0, width: SdoWidth::U8 },
            ),
            WalkStage::Mapping => Some(
                SdoQuery { index: self.pdo_index, sub_index: self.j, width: SdoWidth::U32 },
            ),
            WalkStage::Done => None,
        }
    }

    fn next_slot(&mut self)
        requires
            old(self).wf(),
            old(self)@.mappings.len() == 0,
        ensures
            final(self).wf(),
            final(self)@ == old(self)@.next_slot(),
    {
        if self.slot == 0 {
            self.stage = WalkStage::AssignCount;
            self.slot = 1;
        } else {
            self.stage = WalkStage::Done;
        }
    }

    fn next_assigned(&mut self)
        requires
            old(self).wf(),
            old(self)@.mappings.len() == 0,
            old(self)@.i <= old(self)@.count,
        ensures
            final(self).wf(),
            final(self)@ == old(self)@.next_assigned(),
    {
        if self.i >= self.count {
            self.next_slot();
        } else {
            self.stage = WalkStage::AssignedPdo;
            self.i = self.i + 1;
        }
    }

    fn close_pdo(&mut self)
        requires
            old(self).found_sm@.len() == old(self).found_index@.len(),
            old(self).found_mappings@.len() == old(self).found_index@.len(),
            old(self)@.slot <= 1,
            forall|k: int|
                0 <= k < old(self)@.found.len() ==> (#[trigger] old(self)@.found[k]).2.len() <= 255,
            old(self)@.mappings.len() <= 255,
            1 <= old(self)@.i <= old(self)@.count,
        ensures
            final(self).wf(),
            final(self)@ == old(self)@.close_pdo(),
    {
        let ghost before = self@;
        let sm: u8 = if self.slot == 0 {
            2
        } else {
            3
        };
        let mut done: Vec<u32> = Vec::new();
        std::mem::swap(&mut done, &mut self.mappings);
        self.found_index.push(self.pdo_index);
        self.found_sm.push(sm);
        self.found_mappings.push(done);
        let ghost mid = WalkView {
            found: before.found.push((before.pdo_index, sync_manager_of(before.slot), before.mappings)),
            mappings: seq![],
            ..before
        };
        assert(self@.found =~= mid.found);
        assert(self@.mappings =~= mid.mappings);
        assert(self@ == mid);
        self.stage = WalkStage::AssignedPdo;
        self.next_assigned();
    }

    fn next_mapping(&mut self)
        requires
            old(self).found_sm@.len() == old(self).found_index@.len(),
            old(self).found_mappings@.len() == old(self).found_index@.len(),
            old(self)@.stage == WalkStage::Mapping,
            old(self)@.slot <= 1,
            1 <= old(self)@.i <= old(self)@.count,
            1 <= old(self)@.j <= old(self)@.entry_count,
            old(self)@.mappings.len() <= old(self)@.j,
            forall|k: int|
                0 <= k < old(self)@.found.len() ==> (#[trigger] old(self)@.found[k]).2.len() <= 255,
        ensures
            final(self).wf(),
            final(self)@ == old(self)@.next_mapping(),
    {
        if self.j >= self.entry_count {
            self.close_pdo();
        } else {
            self.j = self.j + 1;
        }
    }

    /// Takes the answer to the last query (the value read, `None` for a read
    /// that failed) and moves the walk on.
    pub fn on_answer(&mut self, answer: Option<u32>)
        requires
            old(self).wf(),
        ensures
            final(self).wf(),
            final(self)@ == old(self)@.step(answer),
    {
        match self.stage {
            WalkStage::AssignCount => match answer {
                Some(c) => {
                    if (c as u8) > 0 {
                        self.stage = WalkStage::AssignedPdo;
                        self.count = c as u8;
                        self.i = 1;
                        self.coe = true;
                    } else {
                        self.next_slot();
                    }
                },
                None => self.next_slot(),
            },
            WalkStage::AssignedPdo => match answer {
                Some(p) => {
                    self.stage = WalkStage::EntryCount;
                    self.pdo_index = p as u16;
                },
                None => self.next_assigned(),
            },
            WalkStage::EntryCount => match answer {
                Some(n) => {
                    if (n as u8) > 0 {
                        self.stage = WalkStage::Mapping;
                        self.entry_count = n as u8;
                        self.j = 1;
                    } else {
                        self.close_pdo();
                    }
                },
                None => self.close_pdo(),
            },
            WalkStage::Mapping => match answer {
                Some(m) => {
                    self.mappings.push(m);
                    self.next_mapping();
                },
                None => self.next_mapping(),
            },
            WalkStage::Done => {},
        }
    }

    pub fn is_done(&self) -> (r: bool)
        ensures
            r == (self@.stage == WalkStage::Done),
    {
        self.stage == WalkStage::Done
    }

    /// Whether the walk found no PDO (the EEPROM is then to be asked).
    pub fn found_none(&self) -> (r: bool)
        requires
            self.wf(),
        ensures
            r == (self@.found.len() == 0),
    {
        self.found_index.len() == 0
    }

    /// The PDOs the walk found, decoded, in the order they were read.
    pub fn pdos(&self) -> (r: Vec<DiscoveredPdo>)
        requires
            self.wf(),
        ensures
            r@.len() == self@.found.len(),
            forall|k: int|
                #![trigger r@[k]]
                0 <= k < r@.len() ==> pdo_of_mappings(
                    r@[k],
                    self@.found[k].0,
                    self@.found[k].1,
                    self@.found[k].2,
                ),
    {
        let mut r: Vec<DiscoveredPdo> = Vec::new();
        let mut k: usize = 0;
        while k < self.found_index.len()
            invariant
                self.wf(),
                k <= self@.found.len(),
                r@.len() == k,
                forall|e: int|
                    #![trigger r@[e]]
                    0 <= e < k ==> pdo_of_mappings(
                        r@[e],
                        self@.found[e].0,
                        self@.found[e].1,
                        self@.found[e].2,
                    ),
            decreases self@.found.len() - k,
        {
            assert(self@.found[k as int].2.len() <= 255);
            r.push(coe_pdo(self.found_index[k], self.found_sm[k], &self.found_mappings[k]));
            k = k + 1;
        }
        r
    }
}

/// Whether `s` summarises the device `identity`, called `name`, at the
/// given addresses, speaking CoE when `coe`, answering the clock probe when
/// `dc`, with the PDOs `pdos`.
pub open spec fn slave_spec(
    s: FfiSlaveInfo,
    identity: SlaveIdentity,
    name: Seq<u8>,
    configured_address: u16,
    alias_address: u16,
    coe: bool,
    dc: bool,
) -> bool {
    &&& s.identity == identity
    &&& s.name@ == fixed_name(name)
    &&& s.configured_address == configured_address
    &&& s.alias_address == alias_address
    &&& s.port_count == 0
    &&& s.mailbox_protocols == (if coe { PROTOCOL_COE } else { 0 })
    &&& s.dc_supported == (if dc { 1u8 } else { 0u8 })
}

impl DiscoveredSlave {
    /// The record of one device: its summary, and the PDOs the walk found,
    /// or, when it found none, those synthesised from the EEPROM's
    /// descriptions.
    pub fn build(
        identity: SlaveIdentity,
        name: &str,
        configured_address: u16,
        alias_address: u16,
        walk: &PdoWalk,
        eeprom_input_bit_lens: &Vec<u16>,
        eeprom_output_bit_lens: &Vec<u16>,
        dc_supported: bool,
    ) -> (r: DiscoveredSlave)
        requires
            walk.wf(),
            0x6000 + eeprom_input_bit_lens@.len() <= 0x10000,
            0x7000 + eeprom_output_bit_lens@.len() <= 0x10000,
        ensures
            slave_spec(
                r.info,
                identity,
                name.spec_bytes(),
                configured_address,
                alias_address,
                walk@.coe,
                dc_supported,
            ),
            walk@.found.len() > 0 ==> r.pdos@.len() == walk@.found.len() && forall|k: int|
                #![trigger r.pdos@[k]]
                0 <= k < r.pdos@.len() ==> pdo_of_mappings(
                    r.pdos@[k],
                    walk@.found[k].0,
                    walk@.found[k].1,
                    walk@.found[k].2,
                ),
            walk@.found.len() == 0 ==> r.pdos@.len() == eeprom_input_bit_lens@.len()
                + eeprom_output_bit_lens@.len() && (forall|k: int|
                #![trigger r.pdos@[k]]
                0 <= k < eeprom_input_bit_lens@.len() ==> eeprom_pdo_spec(
                    r.pdos@[k],
                    false,
                    k,
                    eeprom_input_bit_lens@[k],
                )) && (forall|k: int|
                #![trigger eeprom_output_bit_lens@[k]]
                0 <= k < eeprom_output_bit_lens@.len() ==> eeprom_pdo_spec(
                    r.pdos@[eeprom_input_bit_lens@.len() + k],
                    true,
                    k,
                    eeprom_output_bit_lens@[k],
                )),
    {
        let mut name_field = [0u8; 64];
        assert(name_field@ =~= Seq::new(64, |i: int| 0u8));
        string_to_fixed_bytes(name, &mut name_field);
        let pdos = if walk.found_none() {
            eeprom_pdos(eeprom_input_bit_lens, eeprom_output_bit_lens)
        } else {
            walk.pdos()
        };
        DiscoveredSlave {
            info: FfiSlaveInfo {
                identity,
                name: name_field,
                configured_address,
                alias_address,
                port_count: 0,
                _padding: [0],
                mailbox_protocols: if walk.coe {
                    PROTOCOL_COE
                } else {
                    0
                },
                dc_supported: if dc_supported {
                    1
                } else {
                    0
                },
                _padding2: [0],
            },
            pdos,
        }
    }
}

impl ScanContext {
    pub fn new(slaves: Vec<DiscoveredSlave>) -> (r: ScanContext)
        ensures
            r.slaves == slaves,
    {
        ScanContext { slaves }
    }

    pub fn slave_count(&self) -> (r: u32)
        ensures
            r == self.slaves@.len() as u32,
    {
        self.slaves.len() as u32
    }

    pub fn slave(&self, idx: u32) -> (r: Option<FfiSlaveInfo>)
        ensures
            r == if (idx as int) < self.slaves@.len() {
                Some(self.slaves@[idx as int].info)
            } else {
                None::<FfiSlaveInfo>
            },
    {
        if (idx as usize) < self.slaves.len() {
            Some(self.slaves[idx as usize].info)
        } else {
            None
        }
    }

    pub fn pdo_count(&self, slave_idx: u32) -> (r: u32)
        ensures
            r == if (slave_idx as int) < self.slaves@.len() {
                self.slaves@[slave_idx as int].pdos@.len() as u32
            } else {
                0
            },
    {
        if (slave_idx as usize) < self.slaves.len() {
            self.slaves[slave_idx as usize].pdos.len() as u32
        } else {
            0
        }
    }

    pub fn pdo(&self, slave_idx: u32, pdo_pos: u32) -> (r: Option<FfiPdoInfo>)
        ensures
            r == if (slave_idx as int) < self.slaves@.len() && (pdo_pos as int)
                < self.slaves@[slave_idx as int].pdos@.len() {
                Some(self.slaves@[slave_idx as int].pdos@[pdo_pos as int].info)
            } else {
                None::<FfiPdoInfo>
            },
    {
        if (slave_idx as usize) < self.slaves.len() {
            let s = &self.slaves[slave_idx as usize];
            if (pdo_pos as usize) < s.pdos.len() {
                return Some(s.pdos[pdo_pos as usize].info);
            }
        }
        None
    }

    pub fn pdo_entry_count(&self, slave_idx: u32, pdo_pos: u32) -> (r: u32)
        ensures
            r == if (slave_idx as int) < self.slaves@.len() && (pdo_pos as int)
                < self.slaves@[slave_idx as int].pdos@.len() {
                self.slaves@[slave_idx as int].pdos@[pdo_pos as int].entries@.len() as u32
            } else {
                0
            },
    {
        if (slave_idx as usize) < self.slaves.len() {
            let s = &self.slaves[slave_idx as usize];
            if (pdo_pos as usize) < s.pdos.len() {
                return s.pdos[pdo_pos as usize].entries.len() as u32;
            }
        }
        0
    }

    pub fn pdo_entry(&self, slave_idx: u32, pdo_pos: u32, entry_pos: u32) -> (r: Option<
        FfiPdoEntryInfo,
    >)
        ensures
            r == if (slave_idx as int) < self.slaves@.len() && (pdo_pos as int)
                < self.slaves@[slave_idx as int].pdos@.len() && (entry_pos as int)
                < self.slaves@[slave_idx as int].pdos@[pdo_pos as int].entries@.len() {
                Some(
                    self.slaves@[slave_idx as int].pdos@[pdo_pos as int].entries@[entry_pos as int].info,
                )
            } else {
                None::<FfiPdoEntryInfo>
            },
    {
        if (slave_idx as usize) < self.slaves.len() {
            let s = &self.slaves[slave_idx as usize];
            if (pdo_pos as usize) < s.pdos.len() {
                let p = &s.pdos[pdo_pos as usize];
                if (entry_pos as usize) < p.entries.len() {
                    return Some(p.entries[entry_pos as usize].info);
                }
            }
        }
        None
    }
}

impl Master {
    /// A scan builds its own engine handle; it is refused while a session
    /// holds the interface, and changes nothing here either way.
    pub fn begin_scan(&self) -> (r: Result<(), EcError>)
        ensures
            r == if self.session.is_some() {
                Err::<(), EcError>(EcError::ResourceBusy)
            } else {
                Ok::<(), EcError>(())
            },
    {
        if self.session.is_some() {
            Err(EcError::ResourceBusy)
        } else {
            Ok(())
        }
    }
}

} // verus!
