//! The shared process-data image and the cyclic exchange around it: outputs
//! fan out of the image into the devices' output areas, inputs fan back in
//! after the exchange. A region that would not fit is skipped, never written
//! past the image.
use vstd::prelude::*;
use crate::error::EcError;
use crate::master::Master;
use crate::session::{GroupState, MAX_PDI};

verus! {

/// Where region `k` starts when the regions of `lens` are laid out one after
/// another from `start` in an image of `cap` bytes, a region that would not
/// fit being skipped without taking room.
pub open spec fn region_offset(lens: Seq<usize>, start: int, cap: int, k: int) -> int
    decreases k,
{
    if k <= 0 {
        start
    } else {
        let o = region_offset(lens, start, cap, k - 1);
        if o + lens[k - 1] <= cap {
            o + lens[k - 1]
        } else {
            o
        }
    }
}

/// Whether region `k` fits in the image where its turn comes.
pub open spec fn region_placed(lens: Seq<usize>, start: int, cap: int, k: int) -> bool {
    region_offset(lens, start, cap, k) + lens[k] <= cap
}

/// `s` with `data` written over it from position `at`.
pub open spec fn splice(s: Seq<u8>, at: int, data: Seq<u8>) -> Seq<u8> {
    s.subrange(0, at) + data + s.subrange(at + data.len(), s.len() as int)
}

/// Lengths of the areas.
pub open spec fn area_lens(areas: Seq<Vec<u8>>) -> Seq<usize> {
    Seq::new(areas.len(), |i: int| areas[i]@.len() as usize)
}

/// The image after the first `k` input areas have been copied into it from
/// `start` on.
pub open spec fn fan_in_image(image: Seq<u8>, start: int, areas: Seq<Vec<u8>>, k: int) -> Seq<u8>
    decreases k,
{
    if k <= 0 {
        image
    } else {
        let prev = fan_in_image(image, start, areas, k - 1);
        let lens = area_lens(areas);
        if region_placed(lens, start, image.len() as int, k - 1) {
            splice(
                prev,
                region_offset(lens, start, image.len() as int, k - 1),
                areas[k - 1]@,
            )
        } else {
            prev
        }
    }
}

/// A region that is placed lies inside the image, after `start`, and after
/// every region placed before it: the regions never overlap and never reach
/// past the image, however long they are together.
pub proof fn lemma_placed_regions_disjoint_and_bounded(
    lens: Seq<usize>,
    start: int,
    cap: int,
    j: int,
    k: int,
)
    requires
        0 <= j < k < lens.len(),
        region_placed(lens, start, cap, j),
        region_placed(lens, start, cap, k),
    ensures
        start <= region_offset(lens, start, cap, j),
        region_offset(lens, start, cap, j) + lens[j] <= region_offset(lens, start, cap, k),
        region_offset(lens, start, cap, k) + lens[k] <= cap,
{
    lemma_offset_monotone(lens, start, cap, 0, j);
    lemma_offset_monotone(lens, start, cap, j + 1, k);
}

proof fn lemma_offset_monotone(lens: Seq<usize>, start: int, cap: int, j: int, k: int)
    requires
        0 <= j <= k,
    ensures
        region_offset(lens, start, cap, j) <= region_offset(lens, start, cap, k),
    decreases k - j,
{
    if j < k {
        lemma_offset_monotone(lens, start, cap, j, k - 1);
    }
}

/// A zeroed process-data image of full capacity.
pub fn new_process_data_buffer() -> (r: Vec<u8>)
    ensures
        r@ == Seq::new(MAX_PDI as nat, |i: int| 0u8),
{
    let mut v: Vec<u8> = Vec::new();
    let mut i: usize = 0;
    while i < MAX_PDI
        invariant
            i <= MAX_PDI,
            v@ == Seq::new(i as nat, |k: int| 0u8),
        decreases MAX_PDI - i,
    {
        v.push(0);
        i = i + 1;
        assert(v@ =~= Seq::new(i as nat, |k: int| 0u8));
    }
    v
}

/// The bytes of the image to write into each device's output area, in device
/// order, laying the areas out from the image's start; `None` for an area
/// that would reach past the image.
pub fn fan_out(image: &Vec<u8>, output_lens: &Vec<usize>) -> (r: Vec<Option<Vec<u8>>>)
    ensures
        r@.len() == output_lens@.len(),
        forall|k: int|
            #![trigger r@[k]]
            0 <= k < r@.len() ==> (r@[k] is Some) == region_placed(
                output_lens@,
                0,
                image@.len() as int,
                k,
            ),
        forall|k: int|
            #![trigger r@[k]]
            0 <= k < r@.len() && r@[k] is Some ==> r@[k]->Some_0@ == image@.subrange(
                region_offset(output_lens@, 0, image@.len() as int, k),
                region_offset(output_lens@, 0, image@.len() as int, k) + output_lens@[k],
            ),
{
    let ghost cap = image@.len() as int;
    let ilen = image.len();
    let mut r: Vec<Option<Vec<u8>>> = Vec::new();
    let mut offset: usize = 0;
    let mut i: usize = 0;
    while i < output_lens.len()
        invariant
            i <= output_lens@.len(),
            r@.len() == i,
            offset == region_offset(output_lens@, 0, cap, i as int),
            offset <= cap,
            cap == image@.len(),
            ilen == cap,
            forall|k: int|
                #![trigger r@[k]]
                0 <= k < i ==> (r@[k] is Some) == region_placed(output_lens@, 0, cap, k),
            forall|k: int|
                #![trigger r@[k]]
                0 <= k < i && r@[k] is Some ==> r@[k]->Some_0@ == image@.subrange(
                    region_offset(output_lens@, 0, cap, k),
                    region_offset(output_lens@, 0, cap, k) + output_lens@[k],
                ),
        decreases output_lens@.len() - i,
    {
        let len = output_lens[i];
        if len <= image.len() && offset <= image.len() - len {
            let mut bytes: Vec<u8> = Vec::new();
            let mut j: usize = 0;
            while j < len
                invariant
                    j <= len,
                    offset + len <= image@.len(),
                    ilen == image@.len(),
                    bytes@ == image@.subrange(offset as int, offset + j),
                decreases len - j,
            {
                bytes.push(image[offset + j]);
                j = j + 1;
                assert(bytes@ =~= image@.subrange(offset as int, offset + j));
            }
            r.push(Some(bytes));
            offset = offset + len;
        } else {
            r.push(None);
        }
        i = i + 1;
    }
    r
}

/// Copies each device's input area into the image, in device order, laying
/// the areas out from `start`; an area that would reach past the image is
/// skipped. The image keeps its length.
pub fn fan_in(image: &mut Vec<u8>, start: usize, inputs: &Vec<Vec<u8>>)
    ensures
        final(image)@.len() == old(image)@.len(),
        final(image)@ == fan_in_image(old(image)@, start as int, inputs@, inputs@.len() as int),
{
    let ghost cap = old(image)@.len() as int;
    let ghost lens = area_lens(inputs@);
    let ilen = image.len();
    let mut offset: usize = start;
    let mut i: usize = 0;
    while i < inputs.len()
        invariant
            i <= inputs@.len(),
            cap == old(image)@.len(),
            lens == area_lens(inputs@),
            image@.len() == cap,
            ilen == cap,
            offset == region_offset(lens, start as int, cap, i as int),
            image@ == fan_in_image(old(image)@, start as int, inputs@, i as int),
        decreases inputs@.len() - i,
    {
        let area = &inputs[i];
        let len = area.len();
        assert(lens[i as int] == len);
        if len <= image.len() && offset <= image.len() - len {
            let ghost prev = image@;
            let mut j: usize = 0;
            while j < len
                invariant
                    j <= len,
                    len == area@.len(),
                    offset + len <= cap,
                    image@.len() == cap,
                    ilen == cap,
                    prev.len() == cap,
                    forall|p: int| 0 <= p < offset ==> image@[p] == prev[p],
                    forall|p: int| offset <= p < offset + j ==> image@[p] == area@[p - offset],
                    forall|p: int| offset + j <= p < cap ==> image@[p] == prev[p],
                decreases len - j,
            {
                image.set(offset + j, area[j]);
                j = j + 1;
            }
            assert(image@ =~= splice(prev, offset as int, area@));
            offset = offset + len;
        }
        i = i + 1;
    }
}

/// Index of byte `offset` of an area of `len` bytes, if it lies inside.
pub fn area_index(len: usize, offset: u32) -> (r: Option<usize>)
    ensures
        r == if (offset as int) < len {
            Some(offset as usize)
        } else {
            None::<usize>
        },
{
    if (offset as usize) < len {
        Some(offset as usize)
    } else {
        None
    }
}

/// Byte `offset` of an area, if it lies inside.
pub fn area_byte(area: &[u8], offset: u32) -> (r: Option<u8>)
    ensures
        r == if (offset as int) < area@.len() {
            Some(area@[offset as int])
        } else {
            None::<u8>
        },
{
    if (offset as usize) < area.len() {
        Some(area[offset as usize])
    } else {
        None
    }
}

impl Master {
    /// The error of a process-data access to device `ordinal`, if it cannot
    /// be made: it needs a session in Op and the device.
    pub open spec fn process_data_error(self, ordinal: u16) -> Option<EcError> {
        match self.session {
            None => Some(EcError::NotInitialized),
            Some(s) => if s.group != GroupState::Op {
                Some(EcError::NotOperational)
            } else if ordinal < s.devices@.len() {
                None
            } else {
                Some(EcError::DeviceNotFound)
            },
        }
    }

    /// The slot of device `ordinal` for byte-level process-data access.
    pub fn process_data_slot(&self, ordinal: u16) -> (r: Result<usize, EcError>)
        ensures
            match self.process_data_error(ordinal) {
                Some(e) => r == Err::<usize, EcError>(e),
                None => r == Ok::<usize, EcError>(ordinal as usize),
            },
    {
        match &self.session {
            None => Err(EcError::NotInitialized),
            Some(s) => {
                if s.group != GroupState::Op {
                    Err(EcError::NotOperational)
                } else if (ordinal as usize) < s.devices.len() {
                    Ok(ordinal as usize)
                } else {
                    Err(EcError::DeviceNotFound)
                }
            },
        }
    }

    /// Start of a cyclic exchange: it needs a session in Op; the result is
    /// where the inputs start in the image (the output size).
    pub fn begin_exchange(&self) -> (r: Result<usize, EcError>)
        ensures
            match self.session {
                None => r == Err::<usize, EcError>(EcError::NotInitialized),
                Some(s) => if s.group == GroupState::Op {
                    r == Ok::<usize, EcError>(s.output_size)
                } else {
                    r == Err::<usize, EcError>(EcError::NotOperational)
                },
            },
    {
        match &self.session {
            None => Err(EcError::NotInitialized),
            Some(s) => if s.group == GroupState::Op {
                Ok(s.output_size)
            } else {
                Err(EcError::NotOperational)
            },
        }
    }

    /// Takes the outcome of the bulk exchange: the working counter verbatim,
    /// or, on failure, the cause recorded and `ExchangeFailed` (the inputs are
    /// then not to be fanned in).
    pub fn complete_exchange(&mut self, outcome: Result<u16, String>) -> (r: Result<u16, EcError>)
        ensures
            match outcome {
                Ok(wkc) => r == Ok::<u16, EcError>(wkc) && *final(self) == *old(self),
                Err(cause) => r == Err::<u16, EcError>(EcError::ExchangeFailed) && *final(self)
                    == old(self).failed(cause),
            },
    {
        match outcome {
            Ok(wkc) => Ok(wkc),
            Err(cause) => {
                self.last_error = cause;
                Err(EcError::ExchangeFailed)
            },
        }
    }
}

} // verus!
