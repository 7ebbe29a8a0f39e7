//! The process-wide trust state and the single-shot bootstrap sequence.
//!
//! Bootstrap runs once, strictly in order: record the encryption-control mask, locate
//! the communication block, snapshot the boot metadata, ingest the attestation secret,
//! remap the communication block unencrypted, enable diagnostics, switch to the guarded
//! stack. Each step is a method that refuses to run out of order and leaves the state
//! untouched when it refuses. The cells it fills are written once and then only read.

use vstd::prelude::*;
use crate::addr::{AddressTranslationError, AddressTranslator, ShimVirtAddr, SHIM_VIRT_OFFSET};
use crate::unwind::{UnwindLayout, VirtRange};

verus! {

/// Status the shim reports to the host when it exits after a fault.
pub const FAULT_EXIT_STATUS: u8 = 255;

/// Alignment in bytes that the stack handed to the payload must have.
pub const STACK_ALIGN: u64 = 16;

/// Host-supplied description of the shim's physical layout, snapshotted once.
#[derive(Debug, Clone, Copy, PartialEq, Eq, Structural)]
pub struct BootInfo {
    pub shim_start: u64,
    pub shim_end: u64,
    pub mem_size: u64,
}

/// Where the bootstrap sequence stands.
#[derive(Debug, Clone, Copy, PartialEq, Eq, Structural)]
pub enum BootStage {
    Entered,
    EncryptionBitRecorded,
    ChannelLocated,
    MetadataSnapshotted,
    SecretIngested,
    ChannelUnencrypted,
    DiagnosticsEnabled,
    Running,
}

pub open spec fn stage_index(s: BootStage) -> nat {
    match s {
        BootStage::Entered => 0,
        BootStage::EncryptionBitRecorded => 1,
        BootStage::ChannelLocated => 2,
        BootStage::MetadataSnapshotted => 3,
        BootStage::SecretIngested => 4,
        BootStage::ChannelUnencrypted => 5,
        BootStage::DiagnosticsEnabled => 6,
        BootStage::Running => 7,
    }
}

/// Why a bootstrap step was refused.
#[derive(Debug, Clone, Copy, PartialEq, Eq, Structural)]
pub enum BootError {
    /// The step does not come next in the sequence.
    OutOfOrder,
    /// The communication block's address is not inside the shim's region.
    AddressTranslation(AddressTranslationError),
    /// The stack for the payload is not aligned to [`STACK_ALIGN`] bytes.
    MisalignedStack,
}

/// What the fault path does.
#[derive(Debug, Clone, Copy, PartialEq, Eq, Structural)]
pub enum FaultAction {
    /// Print the fault and a trace, then ask the host for an orderly exit.
    Report,
    /// Print nothing and reset the machine.
    Reset,
}

/// The contents of the trust state.
#[derive(Debug, Clone, Copy, PartialEq, Eq, Structural)]
pub struct TrustView {
    pub stage: BootStage,
    pub cbit_mask: Option<u64>,
    pub hostcall_phys: Option<u64>,
    pub boot_info: Option<BootInfo>,
    pub payload_ready: bool,
    pub in_fault_report: bool,
    /// A step failed fatally: the bootstrap cannot go on.
    pub failed: bool,
}

impl TrustView {
    /// The sequence stands at `s` and has not failed: the step after `s` may run.
    pub open spec fn at(self, s: BootStage) -> bool {
        !self.failed && self.stage == s
    }

    /// `self` is `prev` marked as failed, with nothing else changed.
    pub open spec fn failed_from(self, prev: TrustView) -> bool {
        self == TrustView { failed: true, ..prev }
    }

    pub open spec fn reached(self, s: BootStage) -> bool {
        stage_index(self.stage) >= stage_index(s)
    }

    pub open spec fn secret_ingested(self) -> bool {
        self.reached(BootStage::SecretIngested)
    }

    pub open spec fn channel_unencrypted(self) -> bool {
        self.reached(BootStage::ChannelUnencrypted)
    }

    pub open spec fn printing_enabled(self) -> bool {
        self.reached(BootStage::DiagnosticsEnabled)
    }

    /// Each cell is filled exactly when the sequence has passed the step that fills it.
    pub open spec fn wf(self) -> bool {
        &&& (self.cbit_mask is Some <==> self.reached(BootStage::EncryptionBitRecorded))
        &&& (self.hostcall_phys is Some <==> self.reached(BootStage::ChannelLocated))
        &&& (self.boot_info is Some <==> self.reached(BootStage::MetadataSnapshotted))
        &&& (self.payload_ready ==> self.stage == BootStage::Running)
    }

    /// `self` is `prev` moved on to stage `s`, with nothing else changed.
    pub open spec fn advanced(self, prev: TrustView, s: BootStage) -> bool {
        self == TrustView { stage: s, ..prev }
    }

    /// The state is left as it was and the step is refused as out of order.
    pub open spec fn refused(self, prev: TrustView, r: Result<(), BootError>) -> bool {
        self == prev && r == Err::<(), BootError>(BootError::OutOfOrder)
    }

    /// What a fault raised in this state does.
    pub open spec fn fault_action(self) -> FaultAction {
        if self.printing_enabled() && !self.in_fault_report {
            FaultAction::Report
        } else {
            FaultAction::Reset
        }
    }

    /// The state once a fault raised in this state has decided what to do.
    pub open spec fn after_fault(self) -> TrustView {
        if self.printing_enabled() && !self.in_fault_report {
            TrustView { in_fault_report: true, ..self }
        } else {
            self
        }
    }

    /// Where return addresses may point: the shim's region seen at its virtual offset
    /// and, once the payload is ready, the payload's range. Absent without a metadata
    /// snapshot, when the shim's virtual range would not fit, or when it overlaps.
    pub open spec fn unwind_layout(self, payload: VirtRange) -> Option<UnwindLayout> {
        match self.boot_info {
            Some(b) => if b.shim_end + SHIM_VIRT_OFFSET <= u64::MAX {
                let l = UnwindLayout {
                    shim: VirtRange {
                        start: (b.shim_start + SHIM_VIRT_OFFSET) as u64,
                        end: (b.shim_end + SHIM_VIRT_OFFSET) as u64,
                    },
                    payload: if self.payload_ready {
                        Some(payload)
                    } else {
                        None
                    },
                };
                if b.shim_start <= b.shim_end && l.wf() {
                    Some(l)
                } else {
                    None
                }
            } else {
                None
            },
            None => None,
        }
    }

    /// `next` follows from `self` by one bootstrap step, a refused step, a fatal failure,
    /// the payload becoming ready, or a fault deciding what to do.
    pub open spec fn step(self, next: TrustView) -> bool {
        ||| next == self
        ||| (self.at(BootStage::Entered) && next.cbit_mask is Some && next == TrustView {
            stage: BootStage::EncryptionBitRecorded,
            cbit_mask: next.cbit_mask,
            ..self
        })
        ||| (self.at(BootStage::EncryptionBitRecorded) && next.hostcall_phys is Some && next
            == TrustView {
            stage: BootStage::ChannelLocated,
            hostcall_phys: next.hostcall_phys,
            ..self
        })
        ||| (self.at(BootStage::ChannelLocated) && next.boot_info is Some && next
            == TrustView { stage: BootStage::MetadataSnapshotted, boot_info: next.boot_info, ..self })
        ||| (self.at(BootStage::MetadataSnapshotted) && next.advanced(
            self,
            BootStage::SecretIngested,
        ))
        ||| (self.at(BootStage::SecretIngested) && next.advanced(
            self,
            BootStage::ChannelUnencrypted,
        ))
        ||| (self.at(BootStage::ChannelUnencrypted) && next.advanced(
            self,
            BootStage::DiagnosticsEnabled,
        ))
        ||| (self.at(BootStage::DiagnosticsEnabled) && next.advanced(
            self,
            BootStage::Running,
        ))
        ||| (self.at(BootStage::Running) && !self.payload_ready && next == TrustView {
            payload_ready: true,
            ..self
        })
        ||| (!self.failed && next.failed_from(self))
        ||| next == self.after_fault()
    }

    /// Nothing written in `self` is changed or cleared in `next`, and the sequence does
    /// not go back.
    pub open spec fn keeps_written(self, next: TrustView) -> bool {
        &&& (self.cbit_mask is Some ==> next.cbit_mask == self.cbit_mask)
        &&& (self.hostcall_phys is Some ==> next.hostcall_phys == self.hostcall_phys)
        &&& (self.boot_info is Some ==> next.boot_info == self.boot_info)
        &&& stage_index(self.stage) <= stage_index(next.stage)
        &&& (self.payload_ready ==> next.payload_ready)
        &&& (self.in_fault_report ==> next.in_fault_report)
        &&& (self.failed ==> next.failed)
    }
}

/// The process-wide trust state: written once during bootstrap, then only read.
#[derive(Debug)]
pub struct TrustState {
    cells: TrustView,
}

impl View for TrustState {
    type V = TrustView;

    closed spec fn view(&self) -> TrustView {
        self.cells
    }
}

/// The encryption-control mask, or zero before it has been recorded.
pub fn get_cbit_mask(state: &TrustState) -> (r: u64)
    ensures
        r == match state@.cbit_mask {
            Some(m) => m,
            None => 0,
        },
{
    match state.cells.cbit_mask {
        Some(m) => m,
        None => 0,
    }
}

impl TrustState {
    /// The state at entry: nothing recorded, diagnostics off.
    pub fn new() -> (r: TrustState)
        ensures
            r@ == (TrustView {
                stage: BootStage::Entered,
                cbit_mask: None,
                hostcall_phys: None,
                boot_info: None,
                payload_ready: false,
                in_fault_report: false,
                failed: false,
            }),
            r@.wf(),
    {
        TrustState {
            cells: TrustView {
                stage: BootStage::Entered,
                cbit_mask: None,
                hostcall_phys: None,
                boot_info: None,
                payload_ready: false,
                in_fault_report: false,
                failed: false,
            },
        }
    }


    /// Records the encryption-control mask handed over at entry.
    pub fn record_encryption_bit(&mut self, mask: u64) -> (r: Result<(), BootError>)
        requires
            old(self)@.wf(),
        ensures
            final(self)@.wf(),
            old(self)@.step(final(self)@),
            old(self)@.at(BootStage::Entered) ==> {
                &&& r == Ok::<(), BootError>(())
                &&& final(self)@ == (TrustView {
                    stage: BootStage::EncryptionBitRecorded,
                    cbit_mask: Some(mask),
                    ..old(self)@
                })
            },
            !old(self)@.at(BootStage::Entered) ==> final(self)@.refused(old(self)@, r),
    {
        if self.cells.failed || self.cells.stage != BootStage::Entered {
            return Err(BootError::OutOfOrder);
        }
        self.cells.stage = BootStage::EncryptionBitRecorded;
        self.cells.cbit_mask = Some(mask);
        Ok(())
    }

    /// Translates the communication block's virtual address, handed over at entry,
    /// to its unencrypted physical alias and keeps only that. `shim_start` and
    /// `shim_end` bound the physical region the shim was loaded into.
    pub fn locate_channel(&mut self, shim_start: u64, shim_end: u64, block: u64) -> (r: Result<
        (),
        BootError,
    >)
        requires
            old(self)@.wf(),
        ensures
            final(self)@.wf(),
            old(self)@.step(final(self)@),
            !old(self)@.at(BootStage::EncryptionBitRecorded) ==> final(self)@.refused(
                old(self)@,
                r,
            ),
            old(self)@.at(BootStage::EncryptionBitRecorded) ==> ({
                let t = AddressTranslator {
                    start: shim_start,
                    end: shim_end,
                    cbit_mask: old(self)@.cbit_mask->Some_0,
                };
                match t.virt_to_phys_unencrypted_spec(ShimVirtAddr(block)) {
                    Ok(p) => r == Ok::<(), BootError>(()) && final(self)@ == (TrustView {
                        stage: BootStage::ChannelLocated,
                        hostcall_phys: Some(p.0),
                        ..old(self)@
                    }),
                    Err(e) => r == Err::<(), BootError>(BootError::AddressTranslation(e))
                        && final(self)@.failed_from(old(self)@),
                }
            }),
    {
        if self.cells.failed || self.cells.stage != BootStage::EncryptionBitRecorded {
            return Err(BootError::OutOfOrder);
        }
        let mask = match self.cells.cbit_mask {
            Some(m) => m,
            None => 0,
        };
        let t = AddressTranslator { start: shim_start, end: shim_end, cbit_mask: mask };
        match t.virt_to_phys_unencrypted(ShimVirtAddr(block)) {
            Ok(p) => {
                self.cells.stage = BootStage::ChannelLocated;
                self.cells.hostcall_phys = Some(p.0);
                Ok(())
            },
            Err(e) => {
                self.cells.failed = true;
                Err(BootError::AddressTranslation(e))
            },
        }
    }

    /// Keeps a private copy of the boot metadata before the shared page is reused.
    pub fn snapshot_metadata(&mut self, info: BootInfo) -> (r: Result<(), BootError>)
        requires
            old(self)@.wf(),
        ensures
            final(self)@.wf(),
            old(self)@.step(final(self)@),
            old(self)@.at(BootStage::ChannelLocated) ==> r == Ok::<(), BootError>(())
                && final(self)@ == (TrustView {
                stage: BootStage::MetadataSnapshotted,
                boot_info: Some(info),
                ..old(self)@
            }),
            !old(self)@.at(BootStage::ChannelLocated) ==> final(self)@.refused(old(self)@, r),
    {
        if self.cells.failed || self.cells.stage != BootStage::ChannelLocated {
            return Err(BootError::OutOfOrder);
        }
        self.cells.stage = BootStage::MetadataSnapshotted;
        self.cells.boot_info = Some(info);
        Ok(())
    }

    /// Records that the attestation secret was copied out of the snapshot.
    pub fn record_secret_ingested(&mut self) -> (r: Result<(), BootError>)
        requires
            old(self)@.wf(),
        ensures
            final(self)@.wf(),
            old(self)@.step(final(self)@),
            old(self)@.at(BootStage::MetadataSnapshotted) ==> r == Ok::<(), BootError>(())
                && final(self)@.advanced(old(self)@, BootStage::SecretIngested),
            !old(self)@.at(BootStage::MetadataSnapshotted) ==> final(self)@.refused(old(self)@, r),
    {
        if self.cells.failed || self.cells.stage != BootStage::MetadataSnapshotted {
            return Err(BootError::OutOfOrder);
        }
        self.cells.stage = BootStage::SecretIngested;
        Ok(())
    }

    /// Marks the communication block as remapped unencrypted, which is allowed only
    /// once the metadata snapshot and the secret are in private memory. Returns the
    /// encryption-control mask the remapping needs.
    pub fn switch_channel_unencrypted(&mut self) -> (r: Result<u64, BootError>)
        requires
            old(self)@.wf(),
        ensures
            final(self)@.wf(),
            old(self)@.step(final(self)@),
            old(self)@.at(BootStage::SecretIngested) ==> r == Ok::<u64, BootError>(
                old(self)@.cbit_mask->Some_0,
            ) && final(self)@.advanced(old(self)@, BootStage::ChannelUnencrypted),
            !old(self)@.at(BootStage::SecretIngested) ==> r == Err::<u64, BootError>(
                BootError::OutOfOrder,
            ) && final(self)@ == old(self)@,
    {
        if self.cells.failed || self.cells.stage != BootStage::SecretIngested {
            return Err(BootError::OutOfOrder);
        }
        self.cells.stage = BootStage::ChannelUnencrypted;
        match self.cells.cbit_mask {
            Some(m) => Ok(m),
            None => Ok(0),
        }
    }

    /// Turns printing on: the channel is now safe to use.
    pub fn enable_diagnostics(&mut self) -> (r: Result<(), BootError>)
        requires
            old(self)@.wf(),
        ensures
            final(self)@.wf(),
            old(self)@.step(final(self)@),
            old(self)@.at(BootStage::ChannelUnencrypted) ==> r == Ok::<(), BootError>(())
                && final(self)@.advanced(old(self)@, BootStage::DiagnosticsEnabled),
            !old(self)@.at(BootStage::ChannelUnencrypted) ==> final(self)@.refused(old(self)@, r),
    {
        if self.cells.failed || self.cells.stage != BootStage::ChannelUnencrypted {
            return Err(BootError::OutOfOrder);
        }
        self.cells.stage = BootStage::DiagnosticsEnabled;
        Ok(())
    }

    /// Accepts the stack the payload entry will run on, which must be aligned to
    /// [`STACK_ALIGN`] bytes, and returns it; past this the bootstrap is done.
    pub fn prepare_stack_switch(&mut self, sp: u64) -> (r: Result<u64, BootError>)
        requires
            old(self)@.wf(),
        ensures
            final(self)@.wf(),
            old(self)@.step(final(self)@),
            !old(self)@.at(BootStage::DiagnosticsEnabled) ==> r == Err::<u64, BootError>(
                BootError::OutOfOrder,
            ) && final(self)@ == old(self)@,
            old(self)@.at(BootStage::DiagnosticsEnabled) && sp % STACK_ALIGN != 0 ==> r
                == Err::<u64, BootError>(BootError::MisalignedStack) && final(self)@.failed_from(
                old(self)@,
            ),
            old(self)@.at(BootStage::DiagnosticsEnabled) && sp % STACK_ALIGN == 0 ==> r
                == Ok::<u64, BootError>(sp) && final(self)@.advanced(old(self)@, BootStage::Running),
    {
        if self.cells.failed || self.cells.stage != BootStage::DiagnosticsEnabled {
            return Err(BootError::OutOfOrder);
        }
        if sp % STACK_ALIGN != 0 {
            self.cells.failed = true;
            return Err(BootError::MisalignedStack);
        }
        self.cells.stage = BootStage::Running;
        Ok(sp)
    }

    /// Records that the payload's address space is active; allowed once, after the
    /// bootstrap is done.
    pub fn mark_payload_ready(&mut self) -> (r: Result<(), BootError>)
        requires
            old(self)@.wf(),
        ensures
            final(self)@.wf(),
            old(self)@.step(final(self)@),
            old(self)@.at(BootStage::Running) && !old(self)@.payload_ready ==> r == Ok::<
                (),
                BootError,
            >(()) && final(self)@ == (TrustView { payload_ready: true, ..old(self)@ }),
            !(old(self)@.at(BootStage::Running) && !old(self)@.payload_ready)
                ==> final(self)@.refused(old(self)@, r),
    {
        if self.cells.failed || self.cells.stage != BootStage::Running || self.cells.payload_ready {
            return Err(BootError::OutOfOrder);
        }
        self.cells.payload_ready = true;
        Ok(())
    }

    /// Decides what a fault does. A report is made only with printing enabled and
    /// only by the first fault; the guard is taken here, so any later fault resets.
    pub fn begin_fault_report(&mut self) -> (r: FaultAction)
        requires
            old(self)@.wf(),
        ensures
            final(self)@.wf(),
            old(self)@.step(final(self)@),
            r == old(self)@.fault_action(),
            final(self)@ == old(self)@.after_fault(),
    {
        let enabled = self.printing_enabled();
        if enabled && !self.cells.in_fault_report {
            self.cells.in_fault_report = true;
            FaultAction::Report
        } else {
            FaultAction::Reset
        }
    }

    /// The layout the frame walk resolves return addresses against; `payload` is the
    /// payload's virtual range, used only once the payload is ready.
    pub fn unwind_layout(&self, payload: VirtRange) -> (r: Option<UnwindLayout>)
        ensures
            r == self@.unwind_layout(payload),
    {
        match self.cells.boot_info {
            Some(b) => {
                if b.shim_start > b.shim_end || b.shim_end > u64::MAX - SHIM_VIRT_OFFSET {
                    return None;
                }
                let shim = VirtRange {
                    start: b.shim_start + SHIM_VIRT_OFFSET,
                    end: b.shim_end + SHIM_VIRT_OFFSET,
                };
                let p = if self.cells.payload_ready {
                    Some(payload)
                } else {
                    None
                };
                match UnwindLayout::new(shim, p) {
                    Ok(l) => Some(l),
                    Err(_) => None,
                }
            },
            None => None,
        }
    }

    pub fn stage(&self) -> (r: BootStage)
        ensures
            r == self@.stage,
    {
        self.cells.stage
    }

    /// The communication block's unencrypted physical address, once located.
    pub fn hostcall_phys(&self) -> (r: Option<u64>)
        ensures
            r == self@.hostcall_phys,
    {
        self.cells.hostcall_phys
    }

    /// The snapshot of the boot metadata, once taken.
    pub fn boot_info(&self) -> (r: Option<BootInfo>)
        ensures
            r == self@.boot_info,
    {
        self.cells.boot_info
    }

    /// Whether a bootstrap step failed fatally.
    pub fn failed(&self) -> (r: bool)
        ensures
            r == self@.failed,
    {
        self.cells.failed
    }

    pub fn payload_ready(&self) -> (r: bool)
        ensures
            r == self@.payload_ready,
    {
        self.cells.payload_ready
    }

    pub fn printing_enabled(&self) -> (r: bool)
        ensures
            r == self@.printing_enabled(),
    {
        match self.cells.stage {
            BootStage::DiagnosticsEnabled | BootStage::Running => true,
            _ => false,
        }
    }
}

/// A step changes no written cell and does not go back.
pub proof fn lemma_step_keeps_written(a: TrustView, b: TrustView)
    requires
        a.wf(),
        a.step(b),
    ensures
        a.keeps_written(b),
{
}

/// Written at most once: along any run of bootstrap steps, refusals and faults, each
/// of the encryption-control mask, the boot metadata snapshot and the communication
/// block's address, once written, keeps its value to the end.
pub proof fn lemma_single_writer(run: Seq<TrustView>, i: int, j: int)
    requires
        forall|k: int| 0 <= k < run.len() ==> #[trigger] run[k].wf(),
        forall|k: int| 0 <= k < run.len() - 1 ==> #[trigger] run[k].step(run[k + 1]),
        0 <= i <= j < run.len(),
    ensures
        run[i].cbit_mask is Some ==> run[j].cbit_mask == run[i].cbit_mask,
        run[i].boot_info is Some ==> run[j].boot_info == run[i].boot_info,
        run[i].hostcall_phys is Some ==> run[j].hostcall_phys == run[i].hostcall_phys,
        run[i].keeps_written(run[j]),
    decreases j - i,
{
    if i < j {
        lemma_single_writer(run, i, j - 1);
        assert(run[j - 1].step(run[j - 1 + 1]));
        assert(j - 1 + 1 == j);
        assert(run[j - 1].wf());
        lemma_step_keeps_written(run[j - 1], run[j]);
    }
}

/// In every well-formed state in which the communication block is mapped unencrypted,
/// the boot metadata has been snapshotted and the secret ingested.
pub proof fn lemma_channel_after_snapshot(v: TrustView)
    requires
        v.wf(),
        v.channel_unencrypted(),
    ensures
        v.boot_info is Some,
        v.secret_ingested(),
{
}

/// The step that maps the communication block unencrypted is taken only from the
/// state in which the metadata snapshot and the secret are already in private memory.
pub proof fn lemma_channel_not_before_secret(a: TrustView, b: TrustView)
    requires
        a.wf(),
        a.step(b),
        !a.channel_unencrypted(),
        b.channel_unencrypted(),
    ensures
        a.stage == BootStage::SecretIngested,
        a.boot_info is Some,
        a.secret_ingested(),
{
}

/// A failed bootstrap is final: no later step moves the sequence on, retries it, or
/// clears the failure.
pub proof fn lemma_failure_is_final(a: TrustView, b: TrustView)
    requires
        a.failed,
        a.step(b),
    ensures
        b.failed,
        b.stage == a.stage,
        b.cbit_mask == a.cbit_mask,
        b.hostcall_phys == a.hostcall_phys,
        b.boot_info == a.boot_info,
        b.payload_ready == a.payload_ready,
{
}

/// A fault raised while a fault report is under way prints nothing and resets.
pub proof fn lemma_reentrant_fault_resets(v: TrustView)
    ensures
        v.after_fault().fault_action() == FaultAction::Reset,
        v.after_fault().after_fault() == v.after_fault(),
{
}

} // verus!
