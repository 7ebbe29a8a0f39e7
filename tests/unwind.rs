use shim_sev::unwind::{
    resolve_return_address, walk_frames, FrameSnapshot, OverlappingRanges, TraceEntry,
    UnwindLayout, VirtRange, MAX_FRAMES,
};

const SHIM_BASE: u64 = 0xFFFF_FF80_0010_0000;
const PAYLOAD_BASE: u64 = 0x7F00_0000_0000;

fn shim() -> VirtRange {
    VirtRange { start: SHIM_BASE, end: SHIM_BASE + 0x10_0000 }
}

fn payload() -> VirtRange {
    VirtRange { start: PAYLOAD_BASE, end: PAYLOAD_BASE + 0x10_0000 }
}

fn layout(ready: bool) -> UnwindLayout {
    UnwindLayout::new(shim(), if ready { Some(payload()) } else { None }).unwrap()
}

#[test]
fn payload_relative_resolution() {
    assert_eq!(
        resolve_return_address(&layout(true), PAYLOAD_BASE + 0x20),
        Some(TraceEntry::Payload(0x20))
    );
    assert_eq!(
        resolve_return_address(&layout(true), SHIM_BASE + 0x20),
        Some(TraceEntry::Shim(0x20))
    );
}

#[test]
fn payload_not_resolved_before_ready() {
    assert_eq!(resolve_return_address(&layout(false), PAYLOAD_BASE + 0x20), None);
}

#[test]
fn overlapping_layout_is_refused() {
    let p = VirtRange { start: SHIM_BASE + 0x1000, end: SHIM_BASE + 0x20_0000 };
    assert_eq!(UnwindLayout::new(shim(), Some(p)), Err(OverlappingRanges));
}

#[test]
fn walk_follows_chain() {
    // frame at 0x1000 -> frame at 0x2000 -> frame at 0x3000 whose return address is zero
    let mem = FrameSnapshot {
        words: vec![
            (0x1000, 0x2000),
            (0x1008, SHIM_BASE + 0x40),
            (0x2000, 0x3000),
            (0x2008, PAYLOAD_BASE + 0x20),
            (0x3000, 0),
            (0x3008, 0),
        ],
    };
    let trace = walk_frames(&mem, &layout(true), 0x1000);
    assert_eq!(trace, vec![TraceEntry::Shim(0x40), TraceEntry::Payload(0x20)]);
}

#[test]
fn walk_stops_at_payload_frame_before_ready() {
    let mem = FrameSnapshot {
        words: vec![
            (0x1000, 0x2000),
            (0x1008, SHIM_BASE + 0x40),
            (0x2000, 0x3000),
            (0x2008, PAYLOAD_BASE + 0x20),
        ],
    };
    let trace = walk_frames(&mem, &layout(false), 0x1000);
    assert_eq!(trace, vec![TraceEntry::Shim(0x40)]);
}

#[test]
fn walk_stops_at_unmapped_slot() {
    // the return-address slot of the second frame was never captured
    let mem = FrameSnapshot {
        words: vec![(0x1000, 0x2000), (0x1008, SHIM_BASE + 0x40), (0x2000, 0x3000)],
    };
    let trace = walk_frames(&mem, &layout(true), 0x1000);
    assert_eq!(trace, vec![TraceEntry::Shim(0x40)]);
}

#[test]
fn walk_of_cyclic_chain_is_bounded() {
    // a corrupted chain whose frame points at itself
    let mem = FrameSnapshot { words: vec![(0x1000, 0x1000), (0x1008, SHIM_BASE + 0x10)] };
    let trace = walk_frames(&mem, &layout(false), 0x1000);
    assert_eq!(trace.len() as u64, MAX_FRAMES);
    assert!(trace.iter().all(|e| *e == TraceEntry::Shim(0x10)));
}

#[test]
fn walk_stops_on_overflow() {
    let mem = FrameSnapshot { words: vec![(u64::MAX - 3, 0), (u64::MAX, 1)] };
    assert!(walk_frames(&mem, &layout(false), u64::MAX - 3).is_empty());
}

#[test]
fn walk_stops_at_non_canonical_frame() {
    // mapped in the snapshot, but not an address the page table could translate
    let bad = 0x0000_8000_0000_1000u64;
    let mem = FrameSnapshot { words: vec![(bad, 0x1000), (bad + 8, SHIM_BASE + 0x40)] };
    assert!(walk_frames(&mem, &layout(false), bad).is_empty());
    let high = 0xFFFF_8000_0000_1000u64;
    let mem = FrameSnapshot { words: vec![(high, 0), (high + 8, SHIM_BASE + 0x40)] };
    assert_eq!(walk_frames(&mem, &layout(false), high), vec![TraceEntry::Shim(0x40)]);
}

#[test]
fn walk_stops_outside_both_ranges() {
    let mem = FrameSnapshot { words: vec![(0x1000, 0x2000), (0x1008, 0x4444)] };
    assert!(walk_frames(&mem, &layout(true), 0x1000).is_empty());
}

#[test]
fn snapshot_later_word_wins() {
    let mem = FrameSnapshot { words: vec![(0x1000, 1), (0x2000, 2), (0x1000, 3)] };
    assert_eq!(mem.lookup(0x1000), Some(3));
    assert_eq!(mem.lookup(0x2000), Some(2));
    assert_eq!(mem.lookup(0x3000), None);
}

#[test]
fn walk_follows_misaligned_frames() {
    let mem = FrameSnapshot {
        words: vec![
            (0x1004, 0x2004),
            (0x100C, SHIM_BASE + 0x40),
            (0x2004, 0),
            (0x200C, PAYLOAD_BASE + 0x20),
        ],
    };
    assert_eq!(
        walk_frames(&mem, &layout(true), 0x1004),
        vec![TraceEntry::Shim(0x40), TraceEntry::Payload(0x20)]
    );
}

#[test]
fn walk_reports_payload_frame_at_offset() {
    let mem = FrameSnapshot {
        words: vec![(0x1000, 0x2000), (0x1008, PAYLOAD_BASE + 0x20), (0x2000, 0), (0x2008, 0)],
    };
    assert_eq!(walk_frames(&mem, &layout(true), 0x1000), vec![TraceEntry::Payload(0x20)]);
}
