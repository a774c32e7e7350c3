//! Reassembly of fast-packet messages: payloads longer than one frame, sent as a
//! numbered series of frames.
use crate::NmeaError;
use vstd::prelude::*;

verus! {

/// The most bytes that a fast-packet message can carry: 6 in its first frame and
/// 7 in each of the 31 frames that can follow.
pub const FAST_PACKET_CAPACITY: usize = 223;

/// The most frames that a message in progress may take before it is dropped.
pub const MAX_FRAMES: u8 = 32;

/// The sequence counter of a frame: the top three bits of its first byte.
pub open spec fn sequence_of(control: u8) -> nat {
    control as nat / 32
}

/// The frame index of a frame: the low five bits of its first byte.
pub open spec fn index_of(control: u8) -> nat {
    control as nat % 32
}

/// Where the seven data bytes of the frame with index `index > 0` belong.
pub open spec fn offset_of(index: nat) -> nat {
    (6 + (index - 1) * 7) as nat
}

/// `s` with `b` written over it from `off` on.
pub open spec fn write_at(s: Seq<u8>, off: int, b: Seq<u8>) -> Seq<u8> {
    s.subrange(0, off) + b + s.subrange(off + b.len(), s.len() as int)
}

/// An empty reassembly area.
pub open spec fn zeroed() -> Seq<u8> {
    Seq::new(FAST_PACKET_CAPACITY as nat, |i: int| 0u8)
}

/// A message in progress from one source.
#[derive(Debug)]
pub struct ReassemblyBuffer {
    /// The sequence counter shared by the message's frames.
    pub sequence_id: u8,
    /// The payload length that the first frame announced.
    pub declared_length: u8,
    /// The payload so far, each frame's bytes at the place its index gives.
    pub data: Vec<u8>,
    /// One past the furthest byte written.
    pub high_water: usize,
    /// The frames taken so far.
    pub frames: u8,
}

impl ReassemblyBuffer {
    /// A message still in progress.
    pub open spec fn wf(&self) -> bool {
        &&& self.data@.len() == FAST_PACKET_CAPACITY
        &&& self.sequence_id < 8
        &&& 6 <= self.high_water <= FAST_PACKET_CAPACITY
        &&& self.high_water < self.declared_length
        &&& 1 <= self.frames <= MAX_FRAMES
    }

    /// Whether `self` is what a first frame `p` opens.
    pub open spec fn opened_by(&self, p: Seq<u8>) -> bool {
        &&& self.sequence_id == sequence_of(p[0])
        &&& self.declared_length == p[1]
        &&& self.data@ == write_at(zeroed(), 0, p.subrange(2, 8))
        &&& self.high_water == 6
        &&& self.frames == 1
    }

    /// The bytes after a following frame `p` was written in.
    pub open spec fn written(&self, p: Seq<u8>) -> Seq<u8> {
        write_at(self.data@, offset_of(index_of(p[0])) as int, p.subrange(1, 8))
    }

    /// The high-water mark after a following frame `p` was written in.
    pub open spec fn high_water_after(&self, p: Seq<u8>) -> nat {
        let end = offset_of(index_of(p[0])) + 7;
        if end > self.high_water {
            end
        } else {
            self.high_water as nat
        }
    }

    /// Whether `next` is `self` after a following frame `p` was written in.
    pub open spec fn extended_to(&self, p: Seq<u8>, next: ReassemblyBuffer) -> bool {
        &&& next.sequence_id == self.sequence_id
        &&& next.declared_length == self.declared_length
        &&& next.data@ == self.written(p)
        &&& next.high_water == self.high_water_after(p)
        &&& next.frames == self.frames + 1
    }
}

/// Whether `before` is a message in progress that a following frame `p` belongs to.
pub open spec fn continues(before: Option<ReassemblyBuffer>, p: Seq<u8>) -> bool {
    before is Some && before->Some_0.sequence_id == sequence_of(p[0])
}

/// What taking frame `p` into the state `before` of one source gives: the finished
/// payload, `None` while more frames are due, or the error.
pub open spec fn frame_outcome(before: Option<ReassemblyBuffer>, p: Seq<u8>) -> Result<
    Option<Seq<u8>>,
    NmeaError,
> {
    if index_of(p[0]) == 0 {
        if p[1] <= 6 {
            Ok(Some(p.subrange(2, 2 + p[1])))
        } else {
            Ok(None)
        }
    } else if !continues(before, p) {
        Err(NmeaError::SequenceMismatch)
    } else if before->Some_0.frames >= MAX_FRAMES {
        Err(NmeaError::Stale)
    } else {
        let b = before->Some_0;
        if b.high_water_after(p) >= b.declared_length {
            Ok(Some(b.written(p).subrange(0, b.declared_length as int)))
        } else {
            Ok(None)
        }
    }
}

/// Whether `after` is the state of one source after frame `p` was taken into `before`:
/// a first frame opens a message, or finishes it at once; a following frame of another
/// message leaves the state as it was; a following frame of this message extends it,
/// finishes it, or drops it when it took too many frames.
pub open spec fn frame_state(
    before: Option<ReassemblyBuffer>,
    p: Seq<u8>,
    after: Option<ReassemblyBuffer>,
) -> bool {
    if index_of(p[0]) == 0 {
        if p[1] <= 6 {
            after is None
        } else {
            after is Some && after->Some_0.opened_by(p)
        }
    } else if !continues(before, p) {
        after == before
    } else if frame_outcome(before, p) == Ok::<Option<Seq<u8>>, NmeaError>(None) {
        after is Some && before->Some_0.extended_to(p, after->Some_0)
    } else {
        after is None
    }
}

/// A frame outcome with the payload as a sequence.
pub open spec fn outcome_view(r: Result<Option<Vec<u8>>, NmeaError>) -> Result<
    Option<Seq<u8>>,
    NmeaError,
> {
    match r {
        Ok(Some(v)) => Ok(Some(v@)),
        Ok(None) => Ok(None),
        Err(e) => Err(e),
    }
}

/// A following frame that belongs to no message in progress from its source is refused
/// with `SequenceMismatch`, and the state of that source stays as it was.
pub proof fn lemma_stray_frame_refused(
    before: Option<ReassemblyBuffer>,
    p: Seq<u8>,
    after: Option<ReassemblyBuffer>,
)
    requires
        p.len() == 8,
        index_of(p[0]) > 0,
        !continues(before, p),
        frame_state(before, p, after),
    ensures
        after == before,
        frame_outcome(before, p) == Err::<Option<Seq<u8>>, NmeaError>(NmeaError::SequenceMismatch),
{
}

/// Copies `src[from..from + n]` over `dst[to..to + n]`.
fn copy_into(dst: &mut Vec<u8>, to: usize, src: &[u8], from: usize, n: usize)
    requires
        to + n <= old(dst)@.len(),
        from + n <= src@.len(),
        to + n <= usize::MAX,
        from + n <= usize::MAX,
    ensures
        final(dst)@ == write_at(old(dst)@, to as int, src@.subrange(from as int, from + n)),
{
    let mut k: usize = 0;
    while k < n
        invariant
            k <= n,
            to + n <= dst@.len(),
            from + n <= src@.len(),
            to + n <= usize::MAX,
            from + n <= usize::MAX,
            dst@.len() == old(dst)@.len(),
            forall|j: int| 0 <= j < to || to + k <= j < dst@.len() ==> dst@[j] == old(dst)@[j],
            forall|j: int| to <= j < to + k ==> #[trigger] dst@[j] == src@[from + j - to],
        decreases n - k,
    {
        dst[to + k] = src[from + k];
        k = k + 1;
    }
    assert(dst@ =~= write_at(old(dst)@, to as int, src@.subrange(from as int, from + n)));
}

/// The first `n` bytes of `src`.
fn prefix(src: &Vec<u8>, n: usize) -> (r: Vec<u8>)
    requires
        n <= src@.len(),
    ensures
        r@ == src@.subrange(0, n as int),
{
    let mut r: Vec<u8> = Vec::new();
    let mut k: usize = 0;
    while k < n
        invariant
            k <= n <= src@.len(),
            r@ == src@.subrange(0, k as int),
        decreases n - k,
    {
        r.push(src[k]);
        k = k + 1;
        assert(r@ =~= src@.subrange(0, k as int));
    }
    r
}

/// A zeroed reassembly area.
fn zeroed_area() -> (r: Vec<u8>)
    ensures
        r@ == zeroed(),
{
    let mut r: Vec<u8> = Vec::new();
    let mut k: usize = 0;
    while k < FAST_PACKET_CAPACITY
        invariant
            k <= FAST_PACKET_CAPACITY,
            r@ == Seq::new(k as nat, |i: int| 0u8),
        decreases FAST_PACKET_CAPACITY - k,
    {
        r.push(0u8);
        k = k + 1;
        assert(r@ =~= Seq::new(k as nat, |i: int| 0u8));
    }
    r
}

/// Takes frame `payload` into the state `slot` of its source.
pub fn take_frame(slot: &mut Option<ReassemblyBuffer>, payload: &[u8; 8]) -> (r: Result<
    Option<Vec<u8>>,
    NmeaError,
>)
    requires
        *old(slot) is Some ==> (*old(slot))->Some_0.wf(),
    ensures
        *final(slot) is Some ==> (*final(slot))->Some_0.wf(),
        frame_state(*old(slot), payload@, *final(slot)),
        outcome_view(r) == frame_outcome(*old(slot), payload@),
{
    let p = payload.as_slice();
    let control = p[0];
    let sequence = control / 32;
    let index = control % 32;
    if index == 0 {
        let length = p[1];
        if length <= 6 {
            *slot = None;
            let mut out: Vec<u8> = Vec::new();
            let mut k: usize = 0;
            while k < length as usize
                invariant
                    k <= length <= 6,
                    p@ == payload@,
                    p@.len() == 8,
                    out@ == p@.subrange(2, 2 + k),
                decreases length - k,
            {
                out.push(p[2 + k]);
                k = k + 1;
                assert(out@ =~= p@.subrange(2, 2 + k));
            }
            return Ok(Some(out));
        }
        let mut data = zeroed_area();
        copy_into(&mut data, 0, p, 2, 6);
        *slot = Some(
            ReassemblyBuffer {
                sequence_id: sequence,
                declared_length: length,
                data,
                high_water: 6,
                frames: 1,
            },
        );
        return Ok(None);
    }
    let mut current = None;
    std::mem::swap(slot, &mut current);
    match current {
        None => {
            *slot = None;
            Err(NmeaError::SequenceMismatch)
        },
        Some(mut b) => {
            if b.sequence_id != sequence {
                *slot = Some(b);
                return Err(NmeaError::SequenceMismatch);
            }
            if b.frames >= MAX_FRAMES {
                return Err(NmeaError::Stale);
            }
            let offset = 6 + (index as usize - 1) * 7;
            copy_into(&mut b.data, offset, p, 1, 7);
            if offset + 7 > b.high_water {
                b.high_water = offset + 7;
            }
            b.frames = b.frames + 1;
            if b.high_water >= b.declared_length as usize {
                let out = prefix(&b.data, b.declared_length as usize);
                Ok(Some(out))
            } else {
                *slot = Some(b);
                Ok(None)
            }
        },
    }
}

/// The messages in progress, at most one for each of the 256 source addresses.
#[derive(Debug)]
pub struct FastPacketReassembler {
    slots: Vec<Option<ReassemblyBuffer>>,
}

impl View for FastPacketReassembler {
    type V = Seq<Option<ReassemblyBuffer>>;

    /// The message in progress for each source address.
    closed spec fn view(&self) -> Seq<Option<ReassemblyBuffer>> {
        self.slots@
    }
}

impl FastPacketReassembler {
    /// One entry per source address, each a message still in progress or none.
    pub closed spec fn wf(&self) -> bool {
        &&& self.slots@.len() == 256
        &&& forall|j: int|
            0 <= j < 256 && (#[trigger] self.slots@[j]) is Some ==> self.slots@[j]->Some_0.wf()
    }

    /// A reassembler with no message in progress.
    pub fn new() -> (r: FastPacketReassembler)
        ensures
            r.wf(),
            r@.len() == 256,
            forall|j: int| 0 <= j < 256 ==> #[trigger] r@[j] is None,
    {
        let mut slots: Vec<Option<ReassemblyBuffer>> = Vec::new();
        let mut k: usize = 0;
        while k < 256
            invariant
                k <= 256,
                slots@.len() == k,
                forall|j: int| 0 <= j < k ==> #[trigger] slots@[j] is None,
            decreases 256 - k,
        {
            slots.push(None);
            k = k + 1;
        }
        FastPacketReassembler { slots }
    }

    /// Whether a message from `source` is in progress.
    pub fn in_progress(&self, source: u8) -> (r: bool)
        requires
            self.wf(),
        ensures
            r == self@[source as int] is Some,
    {
        self.slots[source as usize].is_some()
    }

    /// Takes a frame from `source`; the other sources' state stays as it was.
    pub fn ingest(&mut self, source: u8, payload: &[u8; 8]) -> (r: Result<Option<Vec<u8>>, NmeaError>)
        requires
            old(self).wf(),
        ensures
            final(self).wf(),
            final(self)@.len() == 256,
            frame_state(old(self)@[source as int], payload@, final(self)@[source as int]),
            outcome_view(r) == frame_outcome(old(self)@[source as int], payload@),
            forall|j: int|
                0 <= j < 256 && j != source ==> #[trigger] final(self)@[j] == old(self)@[j],
    {
        let r = take_frame(&mut self.slots[source as usize], payload);
        r
    }
}

} // verus!
