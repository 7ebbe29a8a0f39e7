//! The bounded frame-pointer walk behind the fault report.
//!
//! Starting from a frame pointer, each frame holds the caller's frame pointer at its
//! address and the return address in the word above it. The walk reads both only after
//! the memory has said they are mapped, resolves each return address against the shim's
//! range or, once the payload is running, the payload's range, and stops at the first
//! frame that cannot be followed.

use vstd::prelude::*;

verus! {

/// Most frames a single walk reports.
pub const MAX_FRAMES: u64 = 64;

/// Size in bytes of a saved frame pointer: the return address sits this far above it.
pub const WORD_SIZE: u64 = 8;

/// Memory as the walk sees it: a query for whether the word at an address, all
/// [`WORD_SIZE`] bytes from it, is mapped in the active page table, and a read of that
/// word that is only allowed there.
pub trait FrameMemory {
    spec fn mapped(&self, addr: u64) -> bool;

    spec fn word(&self, addr: u64) -> u64;

    fn is_mapped(&self, addr: u64) -> (r: bool)
        ensures
            r == self.mapped(addr),
    ;

    fn read_word(&self, addr: u64) -> (r: u64)
        requires
            self.mapped(addr),
        ensures
            r == self.word(addr),
    ;
}

/// A half-open range `[start, end)` of virtual addresses.
#[derive(Debug, Clone, Copy, PartialEq, Eq, Structural)]
pub struct VirtRange {
    pub start: u64,
    pub end: u64,
}

impl VirtRange {
    pub open spec fn contains(self, a: u64) -> bool {
        self.start <= a < self.end
    }

    pub open spec fn overlaps(self, o: VirtRange) -> bool {
        self.start < o.end && o.start < self.end
    }
}

/// Where return addresses may point: the shim's loaded range and, once the payload
/// runs in its own address space, the payload's range.
#[derive(Debug, Clone, Copy, PartialEq, Eq, Structural)]
pub struct UnwindLayout {
    pub shim: VirtRange,
    pub payload: Option<VirtRange>,
}

/// The ranges of a layout must not overlap.
#[derive(Debug, Clone, Copy, PartialEq, Eq, Structural)]
pub struct OverlappingRanges;

impl UnwindLayout {
    pub open spec fn wf(self) -> bool {
        match self.payload {
            Some(p) => !self.shim.overlaps(p),
            None => true,
        }
    }

    /// Builds a layout, refusing a payload range that overlaps the shim's.
    pub fn new(shim: VirtRange, payload: Option<VirtRange>) -> (r: Result<
        UnwindLayout,
        OverlappingRanges,
    >)
        ensures
            r == if (UnwindLayout { shim, payload }).wf() {
                Ok::<UnwindLayout, OverlappingRanges>(UnwindLayout { shim, payload })
            } else {
                Err(OverlappingRanges)
            },
    {
        match payload {
            Some(p) => {
                if shim.start < p.end && p.start < shim.end {
                    return Err(OverlappingRanges);
                }
            },
            None => {},
        }
        Ok(UnwindLayout { shim, payload })
    }
}

/// One reported frame: an offset from the base of the range its return address fell in.
#[derive(Debug, Clone, Copy, PartialEq, Eq, Structural)]
pub enum TraceEntry {
    Shim(u64),
    Payload(u64),
}

/// What a return address resolves to, shim range first.
pub open spec fn resolve_spec(layout: UnwindLayout, rip: u64) -> Option<TraceEntry> {
    if layout.shim.contains(rip) {
        Some(TraceEntry::Shim((rip - layout.shim.start) as u64))
    } else {
        match layout.payload {
            Some(p) => if p.contains(rip) {
                Some(TraceEntry::Payload((rip - p.start) as u64))
            } else {
                None
            },
            None => None,
        }
    }
}

/// Resolves a return address against the layout.
pub fn resolve_return_address(layout: &UnwindLayout, rip: u64) -> (r: Option<TraceEntry>)
    ensures
        r == resolve_spec(*layout, rip),
{
    if layout.shim.start <= rip && rip < layout.shim.end {
        return Some(TraceEntry::Shim(rip - layout.shim.start));
    }
    match layout.payload {
        Some(p) => {
            if p.start <= rip && rip < p.end {
                Some(TraceEntry::Payload(rip - p.start))
            } else {
                None
            }
        },
        None => None,
    }
}

/// A canonical x86-64 virtual address: bits 47 to 63 all equal.
pub open spec fn is_canonical(a: u64) -> bool {
    (a >> 47u64) == 0 || (a >> 47u64) == 0x1ffffu64
}

/// Relies on x86_64's `VirtAddr::try_new`: it accepts an address whose bits 47 to 63
/// are all equal as it is, sign-extends one whose only set bit among them is bit 47,
/// and refuses every other.
#[verifier::external_body]
fn virt_addr_try_new(a: u64) -> (r: Option<u64>)
    ensures
        is_canonical(a) ==> r == Some(a),
        (a >> 47u64) == 1 ==> r == Some(a | 0xFFFF_0000_0000_0000u64),
        !is_canonical(a) && (a >> 47u64) != 1 ==> r is None,
{
    x86_64::VirtAddr::try_new(a).ok().map(|v| v.as_u64())
}

/// Whether `a` is a canonical virtual address, as the page table understands it.
fn canonical(a: u64) -> (r: bool)
    ensures
        r == is_canonical(a),
{
    match virt_addr_try_new(a) {
        Some(v) => {
            assert((a >> 47u64) == 1 ==> a | 0xFFFF_0000_0000_0000u64 != a) by (bit_vector);
            v == a
        },
        None => false,
    }
}

/// The frames a walk from `rbp` reports with at most `fuel` steps left.
pub open spec fn frame_trace<M: FrameMemory>(
    mem: M,
    layout: UnwindLayout,
    rbp: u64,
    fuel: nat,
) -> Seq<TraceEntry>
    decreases fuel,
{
    if fuel == 0 || rbp + WORD_SIZE > u64::MAX {
        seq![]
    } else {
        let slot = (rbp + WORD_SIZE) as u64;
        if !is_canonical(rbp) || !is_canonical(slot) || !mem.mapped(rbp) || !mem.mapped(slot) {
            seq![]
        } else {
            let rip = mem.word(slot);
            if rip == 0 {
                seq![]
            } else {
                match resolve_spec(layout, rip) {
                    Some(e) => seq![e] + frame_trace(mem, layout, mem.word(rbp), (fuel - 1) as nat),
                    None => seq![],
                }
            }
        }
    }
}

/// Walks the saved frame pointers from `rbp` and reports at most [`MAX_FRAMES`] frames.
/// Memory is read only at addresses whose word `mem` has just reported as mapped.
pub fn walk_frames<M: FrameMemory>(mem: &M, layout: &UnwindLayout, rbp: u64) -> (r: Vec<
    TraceEntry,
>)
    ensures
        r@ == frame_trace(*mem, *layout, rbp, MAX_FRAMES as nat),
        r.len() <= MAX_FRAMES,
{
    let mut out: Vec<TraceEntry> = Vec::new();
    let mut frame = rbp;
    let mut n: u64 = 0;
    while n < MAX_FRAMES
        invariant
            n <= MAX_FRAMES,
            out.len() == n,
            out@ + frame_trace(*mem, *layout, frame, (MAX_FRAMES - n) as nat) == frame_trace(
                *mem,
                *layout,
                rbp,
                MAX_FRAMES as nat,
            ),
        decreases MAX_FRAMES - n,
    {
        if frame > u64::MAX - WORD_SIZE {
            return out;
        }
        let slot = frame + WORD_SIZE;
        if !canonical(frame) || !canonical(slot) || !mem.is_mapped(frame) || !mem.is_mapped(slot) {
            return out;
        }
        let rip = mem.read_word(slot);
        if rip == 0 {
            return out;
        }
        match resolve_return_address(layout, rip) {
            Some(e) => {
                let ghost before = out@;
                out.push(e);
                frame = mem.read_word(frame);
                n = n + 1;
                assert(out@ =~= before + seq![e]);
            },
            None => {
                return out;
            },
        }
    }
    out
}

/// A walk with `fuel` steps left reports at most `fuel` frames, whatever the memory
/// holds, however its frame pointers are chained.
pub proof fn lemma_trace_bounded<M: FrameMemory>(
    mem: M,
    layout: UnwindLayout,
    rbp: u64,
    fuel: nat,
)
    ensures
        frame_trace(mem, layout, rbp, fuel).len() <= fuel,
    decreases fuel,
{
    if fuel > 0 && rbp + WORD_SIZE <= u64::MAX {
        lemma_trace_bounded(mem, layout, mem.word(rbp), (fuel - 1) as nat);
    }
}

/// The frame at `rbp` can be followed: it is canonical and mapped, as is the
/// return-address slot above it, and that slot holds a non-zero address.
pub open spec fn frame_readable<M: FrameMemory>(mem: M, rbp: u64) -> bool {
    &&& rbp + WORD_SIZE <= u64::MAX
    &&& is_canonical(rbp)
    &&& is_canonical((rbp + WORD_SIZE) as u64)
    &&& mem.mapped(rbp)
    &&& mem.mapped((rbp + WORD_SIZE) as u64)
    &&& mem.word((rbp + WORD_SIZE) as u64) != 0
}

/// A readable frame whose return address lies in the shim's range is reported as its
/// offset from the shim's base, never as a payload frame, and the walk goes on from the
/// saved frame pointer.
pub proof fn lemma_walk_shim_frame<M: FrameMemory>(
    mem: M,
    layout: UnwindLayout,
    rbp: u64,
    fuel: nat,
)
    requires
        fuel > 0,
        frame_readable(mem, rbp),
        layout.shim.contains(mem.word((rbp + WORD_SIZE) as u64)),
    ensures
        frame_trace(mem, layout, rbp, fuel) == seq![
            TraceEntry::Shim((mem.word((rbp + WORD_SIZE) as u64) - layout.shim.start) as u64),
        ] + frame_trace(mem, layout, mem.word(rbp), (fuel - 1) as nat),
{
}

/// With the payload running, a readable frame whose return address lies in the
/// payload's range and outside the shim's is reported as its offset from the payload's
/// base, tagged as a payload frame, and the walk goes on from the saved frame pointer.
pub proof fn lemma_walk_payload_frame<M: FrameMemory>(
    mem: M,
    layout: UnwindLayout,
    p: VirtRange,
    rbp: u64,
    fuel: nat,
)
    requires
        fuel > 0,
        frame_readable(mem, rbp),
        layout.payload == Some(p),
        p.contains(mem.word((rbp + WORD_SIZE) as u64)),
        !layout.shim.contains(mem.word((rbp + WORD_SIZE) as u64)),
    ensures
        frame_trace(mem, layout, rbp, fuel) == seq![
            TraceEntry::Payload((mem.word((rbp + WORD_SIZE) as u64) - p.start) as u64),
        ] + frame_trace(mem, layout, mem.word(rbp), (fuel - 1) as nat),
{
}

/// With the payload running, a return address inside the payload's range and outside
/// the shim's resolves to its offset from the payload's base, tagged as a payload frame.
pub proof fn lemma_payload_relative(layout: UnwindLayout, p: VirtRange, rip: u64)
    requires
        layout.payload == Some(p),
        p.contains(rip),
        !layout.shim.contains(rip),
    ensures
        resolve_spec(layout, rip) == Some(TraceEntry::Payload((rip - p.start) as u64)),
{
}

/// Before the payload runs, no return address resolves to a payload frame.
pub proof fn lemma_no_payload_frames_before_ready(layout: UnwindLayout, rip: u64)
    requires
        layout.payload is None,
    ensures
        !(resolve_spec(layout, rip) matches Some(TraceEntry::Payload(_))),
{
}

/// The latest value recorded for `a` in a list of (address, word) pairs.
pub open spec fn snapshot_lookup(s: Seq<(u64, u64)>, a: u64) -> Option<u64>
    decreases s.len(),
{
    if s.len() == 0 {
        None
    } else if s.last().0 == a {
        Some(s.last().1)
    } else {
        snapshot_lookup(s.drop_last(), a)
    }
}

/// Words of memory captured as (address, word) pairs; an address is mapped when it
/// was captured, and a later pair for the same address replaces an earlier one.
#[derive(Debug)]
pub struct FrameSnapshot {
    pub words: Vec<(u64, u64)>,
}

impl FrameSnapshot {
    /// The word captured at `a`, if any.
    pub fn lookup(&self, a: u64) -> (r: Option<u64>)
        ensures
            r == snapshot_lookup(self.words@, a),
    {
        let mut i: usize = self.words.len();
        assert(self.words@.subrange(0, i as int) =~= self.words@);
        while i > 0
            invariant
                i <= self.words.len(),
                snapshot_lookup(self.words@, a) == snapshot_lookup(
                    self.words@.subrange(0, i as int),
                    a,
                ),
            decreases i,
        {
            let (k, v) = self.words[i - 1];
            assert(self.words@.subrange(0, i as int).drop_last() =~= self.words@.subrange(
                0,
                i - 1,
            ));
            if k == a {
                return Some(v);
            }
            i = i - 1;
        }
        None
    }
}

impl FrameMemory for FrameSnapshot {
    open spec fn mapped(&self, addr: u64) -> bool {
        snapshot_lookup(self.words@, addr) is Some
    }

    open spec fn word(&self, addr: u64) -> u64 {
        match snapshot_lookup(self.words@, addr) {
            Some(w) => w,
            None => 0,
        }
    }

    fn is_mapped(&self, addr: u64) -> (r: bool) {
        self.lookup(addr).is_some()
    }

    fn read_word(&self, addr: u64) -> (r: u64) {
        match self.lookup(addr) {
            Some(w) => w,
            None => 0,
        }
    }
}

} // verus!
