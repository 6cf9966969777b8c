//! # Flash memory
//!
//! The internal flash controller. Erasing a page and entering page programming
//! are sequences of register accesses whose course depends on what the
//! registers read; they are given here as state machines that name the next
//! access and advance on its outcome. The sequences own the FLASH peripheral
//! while they run, so that whoever drives them performs the accesses on it.
use vstd::prelude::*;
use crate::bits::{field, with_field, set_field};
use stm32f3::stm32f303::FLASH;

verus! {

/// The FLASH peripheral of the device crate: a singleton that only its owner holds.
#[verifier::external_type_specification]
#[verifier::external_body]
pub struct ExFlash(FLASH);

/// First word of the unlocking sequence of the control register.
pub const FLASH_KEYR_KEY_1: u32 = 0x45670123;
/// Second word of the unlocking sequence of the control register.
pub const FLASH_KEYR_KEY_2: u32 = 0xCDEF89AB;

/// Status register: busy bit.
pub const SR_BSY: u32 = 0;
/// Status register: end-of-operation bit (written 1 to clear it).
pub const SR_EOP: u32 = 5;
/// Status register: the base of a whole-register write, which leaves every
/// write-1-to-clear flag alone.
pub const SR_RESET: u32 = 0x0000_0000;
/// Control register: programming bit.
pub const CR_PG: u32 = 0;
/// Control register: page-erase bit.
pub const CR_PER: u32 = 1;
/// Control register: start bit.
pub const CR_STRT: u32 = 6;

/// Mask of a single-bit field.
pub const FLAG: u32 = 0b1;

/// Errors of a page erase.
#[derive(Clone, Copy, Debug, PartialEq, Eq)]
pub enum FlashError {
    Busy,
    EraseFailed,
}

/// A write of a whole flash controller register.
#[derive(Clone, Copy, Debug, PartialEq, Eq)]
pub enum FlashWrite {
    /// Key register.
    Keyr(u32),
    /// Control register.
    Cr(u32),
    /// Address register.
    Ar(u32),
    /// Status register.
    Sr(u32),
}

/// What a flash sequence asks for next.
#[derive(Debug, PartialEq, Eq)]
pub enum FlashAction<E> {
    /// Read the status register and report its value.
    ReadStatus,
    /// Read the control register and report its value.
    ReadControl,
    /// Perform this register write.
    Write(FlashWrite),
    /// Idle for one instruction.
    Pause,
    /// The sequence is over, with this outcome.
    Finish(Result<(), E>),
}

/// Whether a status word reports an operation in progress.
pub open spec fn is_busy(sr: u32) -> bool {
    field(sr, SR_BSY, FLAG) == 1
}

/// Whether a status word reports the end of an operation.
pub open spec fn is_end_of_operation(sr: u32) -> bool {
    field(sr, SR_EOP, FLAG) == 1
}

/// Whether the status word reports an operation in progress.
pub fn busy(sr: u32) -> (b: bool)
    ensures
        b == is_busy(sr),
{
    (sr >> SR_BSY) & FLAG == 1
}

/// Whether the status word reports the end of an operation.
pub fn end_of_operation(sr: u32) -> (b: bool)
    ensures
        b == is_end_of_operation(sr),
{
    (sr >> SR_EOP) & FLAG == 1
}

/// The control word `cr` with one more flag set.
pub open spec fn cr_with_flag(cr: u32, flag: u32) -> u32 {
    with_field(cr, flag, FLAG, 1)
}

/// The status word written to clear the end-of-operation flag.
pub open spec fn sr_clear_end() -> u32 {
    with_field(SR_RESET, SR_EOP, FLAG, 1)
}

/// The writes that unlock the control register: the two keys, in order.
pub open spec fn unlock_sequence() -> Seq<FlashWrite> {
    seq![FlashWrite::Keyr(FLASH_KEYR_KEY_1), FlashWrite::Keyr(FLASH_KEYR_KEY_2)]
}

/// An unlocking sequence should be written to the FLASH_KEYR register to open the access to
/// the FLASH_CR register. This sequence consists of two write operations into FLASH_KEYR register:
/// 1. Write KEY1 = 0x45670123
/// 2. Write KEY2 = 0xCDEF89AB
/// Any wrong sequence locks up the FPEC and the FLASH_CR register until the next reset.
pub fn unlock_cr() -> (writes: Vec<FlashWrite>)
    ensures
        writes@ == unlock_sequence(),
{
    let mut writes: Vec<FlashWrite> = Vec::new();
    writes.push(FlashWrite::Keyr(FLASH_KEYR_KEY_1));
    writes.push(FlashWrite::Keyr(FLASH_KEYR_KEY_2));
    writes
}

/// Steps of a page erase.
#[derive(Clone, Copy, Debug, PartialEq, Eq)]
pub enum ErasePhase {
    /// 1. Check that no flash operation is ongoing.
    CheckIdle,
    /// Write the first unlock key.
    UnlockFirst,
    /// Write the second unlock key.
    UnlockSecond,
    /// Read the unlocked control register.
    ReadControl,
    /// 2. Set the page-erase bit.
    SelectErase,
    /// 3. Program the address register with the page.
    SetAddress,
    /// 4. Set the start bit as well.
    Start,
    /// 5. Read the status until the busy bit is reset.
    WaitIdle,
    /// Idle between two status reads.
    Pause,
    /// 6. Check the end-of-operation flag.
    CheckEnd,
    /// 7. Clear the end-of-operation flag.
    ClearEnd,
    /// The erase is over.
    Done(Result<(), FlashError>),
}

/// The course of a page erase: its step, the page, and the control word as it
/// stands (read once unlocked, then updated with each control write).
#[derive(Clone, Copy, Debug, PartialEq, Eq)]
pub struct EraseSequence {
    pub phase: ErasePhase,
    pub address: u32,
    pub cr: u32,
}

/// A page erase of the page at `address`, before its first access.
pub open spec fn erase_start(address: u32) -> EraseSequence {
    EraseSequence { phase: ErasePhase::CheckIdle, address, cr: 0 }
}

/// What a page erase asks for in its current phase.
pub open spec fn erase_action(op: EraseSequence) -> FlashAction<FlashError> {
    match op.phase {
        ErasePhase::CheckIdle => FlashAction::ReadStatus,
        ErasePhase::UnlockFirst => FlashAction::Write(unlock_sequence()[0]),
        ErasePhase::UnlockSecond => FlashAction::Write(unlock_sequence()[1]),
        ErasePhase::ReadControl => FlashAction::ReadControl,
        ErasePhase::SelectErase => FlashAction::Write(FlashWrite::Cr(cr_with_flag(op.cr, CR_PER))),
        ErasePhase::SetAddress => FlashAction::Write(FlashWrite::Ar(op.address)),
        ErasePhase::Start => FlashAction::Write(FlashWrite::Cr(cr_with_flag(op.cr, CR_STRT))),
        ErasePhase::WaitIdle => FlashAction::ReadStatus,
        ErasePhase::Pause => FlashAction::Pause,
        ErasePhase::CheckEnd => FlashAction::ReadStatus,
        ErasePhase::ClearEnd => FlashAction::Write(FlashWrite::Sr(sr_clear_end())),
        ErasePhase::Done(result) => FlashAction::Finish(result),
    }
}

/// A page erase after its current action is done; `value` is the register word
/// read when the action was a read.
pub open spec fn erase_next(op: EraseSequence, value: u32) -> EraseSequence {
    match op.phase {
        ErasePhase::CheckIdle => EraseSequence {
            phase: if is_busy(value) {
                ErasePhase::Done(Err(FlashError::Busy))
            } else {
                ErasePhase::UnlockFirst
            },
            ..op
        },
        ErasePhase::UnlockFirst => EraseSequence { phase: ErasePhase::UnlockSecond, ..op },
        ErasePhase::UnlockSecond => EraseSequence { phase: ErasePhase::ReadControl, ..op },
        ErasePhase::ReadControl => EraseSequence { phase: ErasePhase::SelectErase, cr: value, ..op },
        ErasePhase::SelectErase => EraseSequence {
            phase: ErasePhase::SetAddress,
            cr: cr_with_flag(op.cr, CR_PER),
            ..op
        },
        ErasePhase::SetAddress => EraseSequence { phase: ErasePhase::Start, ..op },
        ErasePhase::Start => EraseSequence {
            phase: ErasePhase::WaitIdle,
            cr: cr_with_flag(op.cr, CR_STRT),
            ..op
        },
        ErasePhase::WaitIdle => EraseSequence {
            phase: if is_busy(value) {
                ErasePhase::Pause
            } else {
                ErasePhase::CheckEnd
            },
            ..op
        },
        ErasePhase::Pause => EraseSequence { phase: ErasePhase::WaitIdle, ..op },
        ErasePhase::CheckEnd => EraseSequence {
            phase: if is_end_of_operation(value) {
                ErasePhase::ClearEnd
            } else {
                ErasePhase::Done(Err(FlashError::EraseFailed))
            },
            ..op
        },
        ErasePhase::ClearEnd => EraseSequence { phase: ErasePhase::Done(Ok(())), ..op },
        ErasePhase::Done(_) => op,
    }
}

impl EraseSequence {
    /// A page erase of the page at `address`, before its first access.
    pub fn new(address: u32) -> (op: EraseSequence)
        ensures
            op == erase_start(address),
    {
        EraseSequence { phase: ErasePhase::CheckIdle, address, cr: 0 }
    }

    /// The access that the erase asks for now.
    pub fn action(&self) -> (action: FlashAction<FlashError>)
        ensures
            action == erase_action(*self),
    {
        match self.phase {
            ErasePhase::CheckIdle => FlashAction::ReadStatus,
            ErasePhase::UnlockFirst => FlashAction::Write(FlashWrite::Keyr(FLASH_KEYR_KEY_1)),
            ErasePhase::UnlockSecond => FlashAction::Write(FlashWrite::Keyr(FLASH_KEYR_KEY_2)),
            ErasePhase::ReadControl => FlashAction::ReadControl,
            ErasePhase::SelectErase => FlashAction::Write(
                FlashWrite::Cr(set_field(self.cr, CR_PER, FLAG, 1)),
            ),
            ErasePhase::SetAddress => FlashAction::Write(FlashWrite::Ar(self.address)),
            ErasePhase::Start => FlashAction::Write(
                FlashWrite::Cr(set_field(self.cr, CR_STRT, FLAG, 1)),
            ),
            ErasePhase::WaitIdle => FlashAction::ReadStatus,
            ErasePhase::Pause => FlashAction::Pause,
            ErasePhase::CheckEnd => FlashAction::ReadStatus,
            ErasePhase::ClearEnd => FlashAction::Write(
                FlashWrite::Sr(set_field(SR_RESET, SR_EOP, FLAG, 1)),
            ),
            ErasePhase::Done(result) => FlashAction::Finish(result),
        }
    }

    /// Advances the erase past its current action; `value` is the register word
    /// that was read when the action was a read, and is not looked at otherwise.
    pub fn step(&mut self, value: u32)
        ensures
            *final(self) == erase_next(*old(self), value),
    {
        match self.phase {
            ErasePhase::CheckIdle => {
                self.phase = if busy(value) {
                    ErasePhase::Done(Err(FlashError::Busy))
                } else {
                    ErasePhase::UnlockFirst
                };
            },
            ErasePhase::UnlockFirst => {
                self.phase = ErasePhase::UnlockSecond;
            },
            ErasePhase::UnlockSecond => {
                self.phase = ErasePhase::ReadControl;
            },
            ErasePhase::ReadControl => {
                self.phase = ErasePhase::SelectErase;
                self.cr = value;
            },
            ErasePhase::SelectErase => {
                self.phase = ErasePhase::SetAddress;
                self.cr = set_field(self.cr, CR_PER, FLAG, 1);
            },
            ErasePhase::SetAddress => {
                self.phase = ErasePhase::Start;
            },
            ErasePhase::Start => {
                self.phase = ErasePhase::WaitIdle;
                self.cr = set_field(self.cr, CR_STRT, FLAG, 1);
            },
            ErasePhase::WaitIdle => {
                self.phase = if busy(value) {
                    ErasePhase::Pause
                } else {
                    ErasePhase::CheckEnd
                };
            },
            ErasePhase::Pause => {
                self.phase = ErasePhase::WaitIdle;
            },
            ErasePhase::CheckEnd => {
                self.phase = if end_of_operation(value) {
                    ErasePhase::ClearEnd
                } else {
                    ErasePhase::Done(Err(FlashError::EraseFailed))
                };
            },
            ErasePhase::ClearEnd => {
                self.phase = ErasePhase::Done(Ok(()));
            },
            ErasePhase::Done(_) => {},
        }
    }
}

/// Steps of entering page programming.
#[derive(Clone, Copy, Debug, PartialEq, Eq)]
pub enum WritePhase {
    /// 1. Check that no flash operation is ongoing.
    CheckIdle,
    /// Write the first unlock key.
    UnlockFirst,
    /// Write the second unlock key.
    UnlockSecond,
    /// Read the unlocked control register.
    ReadControl,
    /// 2. Set the programming bit.
    SelectProgram,
    /// 4. Read the status until the busy bit is reset.
    WaitIdle,
    /// Idle between two status reads.
    Pause,
    /// 5. Check the end-of-operation flag.
    CheckEnd,
    /// 5. Clear the end-of-operation flag.
    ClearEnd,
    /// The sequence is over.
    Done(Result<(), ()>),
}

/// The course of entering page programming, with the control word as it stands.
#[derive(Clone, Copy, Debug, PartialEq, Eq)]
pub struct WriteSequence {
    pub phase: WritePhase,
    pub cr: u32,
}

/// Entering programming, before its first access.
pub open spec fn write_start() -> WriteSequence {
    WriteSequence { phase: WritePhase::CheckIdle, cr: 0 }
}

/// What entering programming asks for in its current phase.
pub open spec fn write_action(op: WriteSequence) -> FlashAction<()> {
    match op.phase {
        WritePhase::CheckIdle => FlashAction::ReadStatus,
        WritePhase::UnlockFirst => FlashAction::Write(unlock_sequence()[0]),
        WritePhase::UnlockSecond => FlashAction::Write(unlock_sequence()[1]),
        WritePhase::ReadControl => FlashAction::ReadControl,
        WritePhase::SelectProgram => FlashAction::Write(FlashWrite::Cr(cr_with_flag(op.cr, CR_PG))),
        WritePhase::WaitIdle => FlashAction::ReadStatus,
        WritePhase::Pause => FlashAction::Pause,
        WritePhase::CheckEnd => FlashAction::ReadStatus,
        WritePhase::ClearEnd => FlashAction::Write(FlashWrite::Sr(sr_clear_end())),
        WritePhase::Done(result) => FlashAction::Finish(result),
    }
}

/// Entering programming after the current action is done; `value` is the
/// register word read when the action was a read.
pub open spec fn write_next(op: WriteSequence, value: u32) -> WriteSequence {
    match op.phase {
        WritePhase::CheckIdle => WriteSequence {
            phase: if is_busy(value) {
                WritePhase::Done(Err(()))
            } else {
                WritePhase::UnlockFirst
            },
            ..op
        },
        WritePhase::UnlockFirst => WriteSequence { phase: WritePhase::UnlockSecond, ..op },
        WritePhase::UnlockSecond => WriteSequence { phase: WritePhase::ReadControl, ..op },
        WritePhase::ReadControl => WriteSequence { phase: WritePhase::SelectProgram, cr: value },
        WritePhase::SelectProgram => WriteSequence {
            phase: WritePhase::WaitIdle,
            cr: cr_with_flag(op.cr, CR_PG),
        },
        WritePhase::WaitIdle => WriteSequence {
            phase: if is_busy(value) {
                WritePhase::Pause
            } else {
                WritePhase::CheckEnd
            },
            ..op
        },
        WritePhase::Pause => WriteSequence { phase: WritePhase::WaitIdle, ..op },
        WritePhase::CheckEnd => WriteSequence {
            phase: if is_end_of_operation(value) {
                WritePhase::ClearEnd
            } else {
                WritePhase::Done(Err(()))
            },
            ..op
        },
        WritePhase::ClearEnd => WriteSequence { phase: WritePhase::Done(Ok(())), ..op },
        WritePhase::Done(_) => op,
    }
}

impl WriteSequence {
    /// Entering programming, before its first access.
    pub fn new() -> (op: WriteSequence)
        ensures
            op == write_start(),
    {
        WriteSequence { phase: WritePhase::CheckIdle, cr: 0 }
    }

    /// The access that the sequence asks for now.
    pub fn action(&self) -> (action: FlashAction<()>)
        ensures
            action == write_action(*self),
    {
        match self.phase {
            WritePhase::CheckIdle => FlashAction::ReadStatus,
            WritePhase::UnlockFirst => FlashAction::Write(FlashWrite::Keyr(FLASH_KEYR_KEY_1)),
            WritePhase::UnlockSecond => FlashAction::Write(FlashWrite::Keyr(FLASH_KEYR_KEY_2)),
            WritePhase::ReadControl => FlashAction::ReadControl,
            WritePhase::SelectProgram => FlashAction::Write(
                FlashWrite::Cr(set_field(self.cr, CR_PG, FLAG, 1)),
            ),
            WritePhase::WaitIdle => FlashAction::ReadStatus,
            WritePhase::Pause => FlashAction::Pause,
            WritePhase::CheckEnd => FlashAction::ReadStatus,
            WritePhase::ClearEnd => FlashAction::Write(
                FlashWrite::Sr(set_field(SR_RESET, SR_EOP, FLAG, 1)),
            ),
            WritePhase::Done(result) => FlashAction::Finish(result),
        }
    }

    /// Advances past the current action; `value` is the register word that was
    /// read when the action was a read, and is not looked at otherwise.
    pub fn step(&mut self, value: u32)
        ensures
            *final(self) == write_next(*old(self), value),
    {
        match self.phase {
            WritePhase::CheckIdle => {
                self.phase = if busy(value) {
                    WritePhase::Done(Err(()))
                } else {
                    WritePhase::UnlockFirst
                };
            },
            WritePhase::UnlockFirst => {
                self.phase = WritePhase::UnlockSecond;
            },
            WritePhase::UnlockSecond => {
                self.phase = WritePhase::ReadControl;
            },
            WritePhase::ReadControl => {
                self.phase = WritePhase::SelectProgram;
                self.cr = value;
            },
            WritePhase::SelectProgram => {
                self.phase = WritePhase::WaitIdle;
                self.cr = set_field(self.cr, CR_PG, FLAG, 1);
            },
            WritePhase::WaitIdle => {
                self.phase = if busy(value) {
                    WritePhase::Pause
                } else {
                    WritePhase::CheckEnd
                };
            },
            WritePhase::Pause => {
                self.phase = WritePhase::WaitIdle;
            },
            WritePhase::CheckEnd => {
                self.phase = if end_of_operation(value) {
                    WritePhase::ClearEnd
                } else {
                    WritePhase::Done(Err(()))
                };
            },
            WritePhase::ClearEnd => {
                self.phase = WritePhase::Done(Ok(()));
            },
            WritePhase::Done(_) => {},
        }
    }
}

/// A page erase that holds the FLASH peripheral while it runs.
pub struct PageErase {
    pub flash: FLASH,
    pub sequence: EraseSequence,
}

/// Entering page programming, holding the FLASH peripheral while it runs.
pub struct PageWrite {
    pub flash: FLASH,
    pub sequence: WriteSequence,
}

/// Opaque Access Control Register (ACR)
pub struct ACR {
    _0: (),
}

/// Constrained FLASH peripheral
pub struct Parts {
    /// Opaque Access Control Register (ACR)
    pub acr: ACR,
}

/// The parts of the constrained peripheral: the one access control register
/// proxy.
pub closed spec fn constrained_parts() -> Parts {
    Parts { acr: ACR { _0: () } }
}

/// Extension trait to constrain the FLASH peripheral
pub trait FlashExt: Sized {
    /// Constrains the FLASH peripheral to play nicely with the other abstractions
    fn constrain(self) -> (parts: Parts)
        ensures
            parts == constrained_parts(),
    ;

    /// Enters page programming: refuses while an operation is ongoing, otherwise
    /// unlocks the control register, sets its programming bit, waits until the
    /// controller is idle, and succeeds exactly when the end-of-operation flag
    /// is set, which it then clears.
    fn page_write(self) -> (op: PageWrite)
        ensures
            op.sequence == write_start(),
    ;

    /// Erases the page at `address`: refuses while an operation is ongoing,
    /// otherwise unlocks the control register, sets the page-erase bit, writes
    /// `address` to the address register, sets the start bit as well, waits
    /// until the controller is idle, and succeeds exactly when the
    /// end-of-operation flag is set, which it then clears.
    fn page_erase(self, address: u32) -> (op: PageErase)
        ensures
            op.sequence == erase_start(address),
    ;
}

impl FlashExt for FLASH {
    fn constrain(self) -> (parts: Parts) {
        Parts { acr: ACR { _0: () } }
    }

    fn page_write(self) -> (op: PageWrite) {
        PageWrite { flash: self, sequence: WriteSequence::new() }
    }

    fn page_erase(self, address: u32) -> (op: PageErase) {
        PageErase { flash: self, sequence: EraseSequence::new(address) }
    }
}

/// There is only one value of the constrained parts.
pub proof fn law_one_parts_value(parts: Parts)
    ensures
        parts == constrained_parts(),
{
}

/// Setting a control flag sets that bit and keeps every other bit of the
/// control word; clearing the end-of-operation flag writes a 1 to that flag
/// only, which leaves the other write-1-to-clear flags alone.
pub proof fn law_register_words(cr: u32)
    ensures
        field(cr_with_flag(cr, CR_PER), CR_PER, FLAG) == 1,
        cr_with_flag(cr, CR_PER) & !0x2u32 == cr & !0x2u32,
        field(cr_with_flag(cr, CR_STRT), CR_STRT, FLAG) == 1,
        cr_with_flag(cr, CR_STRT) & !0x40u32 == cr & !0x40u32,
        field(cr_with_flag(cr, CR_PG), CR_PG, FLAG) == 1,
        cr_with_flag(cr, CR_PG) & !0x1u32 == cr & !0x1u32,
        sr_clear_end() == 0x0000_0020,
{
    assert(field(with_field(cr, 1, 1, 1), 1, 1) == 1 && with_field(cr, 1, 1, 1) & !0x2u32 == cr
        & !0x2u32 && field(with_field(cr, 6, 1, 1), 6, 1) == 1 && with_field(cr, 6, 1, 1) & !0x40u32
        == cr & !0x40u32 && field(with_field(cr, 0, 1, 1), 0, 1) == 1 && with_field(cr, 0, 1, 1)
        & !0x1u32 == cr & !0x1u32 && with_field(0u32, 5, 1, 1) == 0x20u32) by (bit_vector);
}

/// A page erase first reads the status; if an operation is ongoing it ends with
/// `Busy` without writing anything, otherwise it goes on to unlock.
pub proof fn law_erase_refuses_when_busy(address: u32, sr: u32)
    ensures
        erase_action(erase_start(address)) == FlashAction::<FlashError>::ReadStatus,
        is_busy(sr) ==> erase_next(erase_start(address), sr).phase == ErasePhase::Done(
            Err(FlashError::Busy),
        ),
        !is_busy(sr) ==> erase_next(erase_start(address), sr).phase == ErasePhase::UnlockFirst,
{
}

/// Once the controller is found idle, a page erase writes the unlock sequence,
/// reads the control word, sets the page-erase bit in it, writes the page
/// address, and sets the start bit in addition to the page-erase bit; then it
/// polls the status. Only the control word read (`c`) enters the words written.
pub proof fn law_erase_command_sequence(
    address: u32,
    s0: u32,
    s1: u32,
    s2: u32,
    c: u32,
    s4: u32,
    s5: u32,
    s6: u32,
)
    requires
        !is_busy(s0),
    ensures
        ({
            let op1 = erase_next(erase_start(address), s0);
            let op2 = erase_next(op1, s1);
            let op3 = erase_next(op2, s2);
            let op4 = erase_next(op3, c);
            let op5 = erase_next(op4, s4);
            let op6 = erase_next(op5, s5);
            let op7 = erase_next(op6, s6);
            &&& erase_action(op1) == FlashAction::<FlashError>::Write(unlock_sequence()[0])
            &&& erase_action(op2) == FlashAction::<FlashError>::Write(unlock_sequence()[1])
            &&& erase_action(op3) == FlashAction::<FlashError>::ReadControl
            &&& erase_action(op4) == FlashAction::<FlashError>::Write(
                FlashWrite::Cr(cr_with_flag(c, CR_PER)),
            )
            &&& erase_action(op5) == FlashAction::<FlashError>::Write(FlashWrite::Ar(address))
            &&& erase_action(op6) == FlashAction::<FlashError>::Write(
                FlashWrite::Cr(cr_with_flag(cr_with_flag(c, CR_PER), CR_STRT)),
            )
            &&& field(cr_with_flag(cr_with_flag(c, CR_PER), CR_STRT), CR_PER, FLAG) == 1
            &&& field(cr_with_flag(cr_with_flag(c, CR_PER), CR_STRT), CR_STRT, FLAG) == 1
            &&& op7.phase == ErasePhase::WaitIdle
            &&& erase_action(op7) == FlashAction::<FlashError>::ReadStatus
        }),
{
    assert(field(with_field(with_field(c, 1, 1, 1), 6, 1, 1), 1, 1) == 1 && field(
        with_field(with_field(c, 1, 1, 1), 6, 1, 1),
        6,
        1,
    ) == 1) by (bit_vector);
}

/// While the status reads busy, the erase idles and reads the status again; it
/// writes nothing until the busy bit is reset, and then checks the
/// end-of-operation flag.
pub proof fn law_erase_waits_while_busy(op: EraseSequence, sr: u32, any: u32)
    requires
        op.phase == ErasePhase::WaitIdle,
    ensures
        erase_action(op) == FlashAction::<FlashError>::ReadStatus,
        is_busy(sr) ==> erase_action(erase_next(op, sr)) == FlashAction::<FlashError>::Pause,
        is_busy(sr) ==> erase_next(erase_next(op, sr), any) == op,
        !is_busy(sr) ==> erase_next(op, sr).phase == ErasePhase::CheckEnd,
{
}

/// After the wait, the erase succeeds exactly when the end-of-operation flag is
/// set: then it clears the flag and ends with `Ok`; otherwise it ends with
/// `EraseFailed`.
pub proof fn law_erase_outcome(op: EraseSequence, end_sr: u32, any: u32)
    requires
        op.phase == ErasePhase::CheckEnd,
    ensures
        !is_end_of_operation(end_sr) ==> erase_next(op, end_sr).phase == ErasePhase::Done(
            Err(FlashError::EraseFailed),
        ),
        is_end_of_operation(end_sr) ==> erase_action(erase_next(op, end_sr))
            == FlashAction::<FlashError>::Write(FlashWrite::Sr(sr_clear_end())),
        is_end_of_operation(end_sr) ==> erase_next(erase_next(op, end_sr), any).phase
            == ErasePhase::Done(Ok(())),
{
}

/// A page erase keeps its address, and once over it stays over with the same
/// outcome, which is the outcome its action reports.
pub proof fn law_erase_done_is_final(op: EraseSequence, value: u32)
    ensures
        erase_next(op, value).address == op.address,
        op.phase is Done ==> erase_next(op, value) == op,
        op.phase is Done ==> erase_action(op) == FlashAction::Finish(op.phase->Done_0),
        erase_action(op) is Finish ==> op.phase is Done,
{
}

/// The writes a page erase makes when each of its actions is answered, in turn,
/// by one of `values` (the word read, for a read; ignored otherwise).
pub open spec fn erase_writes(op: EraseSequence, values: Seq<u32>) -> Seq<FlashWrite>
    decreases values.len(),
{
    if values.len() == 0 {
        Seq::empty()
    } else {
        let rest = erase_writes(erase_next(op, values[0]), values.drop_first());
        match erase_action(op) {
            FlashAction::Write(w) => seq![w] + rest,
            _ => rest,
        }
    }
}

/// A page erase after each of its actions is answered, in turn, by one of `values`.
pub open spec fn erase_after(op: EraseSequence, values: Seq<u32>) -> EraseSequence
    decreases values.len(),
{
    if values.len() == 0 {
        op
    } else {
        erase_after(erase_next(op, values[0]), values.drop_first())
    }
}

/// How many writes a page erase has made before it reaches a phase (six once
/// it is over).
spec fn erase_writes_before(phase: ErasePhase) -> int {
    match phase {
        ErasePhase::CheckIdle => 0,
        ErasePhase::UnlockFirst => 0,
        ErasePhase::UnlockSecond => 1,
        ErasePhase::ReadControl => 2,
        ErasePhase::SelectErase => 2,
        ErasePhase::SetAddress => 3,
        ErasePhase::Start => 4,
        ErasePhase::WaitIdle => 5,
        ErasePhase::Pause => 5,
        ErasePhase::CheckEnd => 5,
        ErasePhase::ClearEnd => 5,
        ErasePhase::Done(_) => 6,
    }
}

/// From any phase, the writes still to come fit in the six of a whole erase,
/// and the ones at the first two places of the whole erase are the keys, in
/// order, while no other write is a key write.
proof fn lemma_erase_writes_shape(op: EraseSequence, values: Seq<u32>)
    ensures
        ({
            let w = erase_writes(op, values);
            let k = erase_writes_before(op.phase);
            &&& k + w.len() <= 6
            &&& forall|i: int| 0 <= i < w.len() ==> ((k + i < 2) <==> #[trigger] w[i] is Keyr)
            &&& forall|i: int|
                0 <= i < w.len() && k + i < 2 ==> #[trigger] w[i] == unlock_sequence()[k + i]
        }),
    decreases values.len(),
{
    if values.len() > 0 {
        let next = erase_next(op, values[0]);
        let rest = erase_writes(next, values.drop_first());
        lemma_erase_writes_shape(next, values.drop_first());
        let w = erase_writes(op, values);
        let k = erase_writes_before(op.phase);
        match erase_action(op) {
            FlashAction::Write(x) => {
                assert(w == seq![x] + rest);
                assert(erase_writes_before(next.phase) == k + 1);
                assert forall|i: int| 0 <= i < w.len() implies ((k + i < 2) <==> #[trigger] w[i] is Keyr) by {
                    if i > 0 {
                        assert(w[i] == rest[i - 1]);
                    }
                }
                assert forall|i: int| 0 <= i < w.len() && k + i < 2 implies #[trigger] w[i]
                    == unlock_sequence()[k + i] by {
                    if i > 0 {
                        assert(w[i] == rest[i - 1]);
                    }
                }
            },
            _ => {
                assert(w == rest);
                if !(next.phase is Done) || op.phase is Done {
                    assert(erase_writes_before(next.phase) == k);
                }
            },
        }
    }
}

/// A whole page erase, whatever the registers read, makes at most six writes;
/// the writes at its first two places are the two keys, in order, and no other
/// write is a key write, so the keys come before every control register write.
pub proof fn law_erase_run_writes(address: u32, values: Seq<u32>)
    ensures
        ({
            let w = erase_writes(erase_start(address), values);
            &&& w.len() <= 6
            &&& forall|i: int| 0 <= i < w.len() ==> (i < 2 <==> #[trigger] w[i] is Keyr)
            &&& forall|i: int| 0 <= i < w.len() && i < 2 ==> #[trigger] w[i] == unlock_sequence()[i]
            &&& forall|i: int, j: int|
                0 <= i < w.len() && 0 <= j < w.len() && #[trigger] w[i] is Keyr && #[trigger] w[j] is Cr
                    ==> i < j
        }),
{
    lemma_erase_writes_shape(erase_start(address), values);
}

/// Two erases in the same phase with the same control word, answered by the
/// same register values, end in the same phase and make the same writes, except
/// that an address write carries each one's own address.
proof fn lemma_erase_address_free(a: EraseSequence, b: EraseSequence, values: Seq<u32>)
    requires
        a.phase == b.phase,
        a.cr == b.cr,
    ensures
        erase_after(a, values).phase == erase_after(b, values).phase,
        erase_writes(a, values).len() == erase_writes(b, values).len(),
        forall|i: int|
            0 <= i < erase_writes(a, values).len() ==> #[trigger] erase_writes(a, values)[i]
                == erase_writes(b, values)[i] || (erase_writes(a, values)[i] == FlashWrite::Ar(
                a.address,
            ) && erase_writes(b, values)[i] == FlashWrite::Ar(b.address)),
    decreases values.len(),
{
    if values.len() > 0 {
        let na = erase_next(a, values[0]);
        let nb = erase_next(b, values[0]);
        lemma_erase_address_free(na, nb, values.drop_first());
        let wa = erase_writes(a, values);
        let wb = erase_writes(b, values);
        let ra = erase_writes(na, values.drop_first());
        let rb = erase_writes(nb, values.drop_first());
        match erase_action(a) {
            FlashAction::Write(x) => {
                let y = erase_action(b)->Write_0;
                assert(wa == seq![x] + ra);
                assert(wb == seq![y] + rb);
                assert forall|i: int| 0 <= i < wa.len() implies #[trigger] wa[i] == wb[i] || (wa[i]
                    == FlashWrite::Ar(a.address) && wb[i] == FlashWrite::Ar(b.address)) by {
                    if i > 0 {
                        assert(wa[i] == ra[i - 1]);
                        assert(wb[i] == rb[i - 1]);
                    }
                }
            },
            _ => {
                assert(wa == ra);
                assert(wb == rb);
            },
        }
    }
}

/// The address does not steer a page erase: run on the same register values,
/// erases of any two addresses end with the same outcome and make the same
/// writes, except that the address write carries each one's own address.
pub proof fn law_erase_address_free(a1: u32, a2: u32, values: Seq<u32>)
    ensures
        erase_after(erase_start(a1), values).phase == erase_after(erase_start(a2), values).phase,
        erase_writes(erase_start(a1), values).len() == erase_writes(erase_start(a2), values).len(),
        forall|i: int|
            0 <= i < erase_writes(erase_start(a1), values).len() ==> #[trigger] erase_writes(
                erase_start(a1),
                values,
            )[i] == erase_writes(erase_start(a2), values)[i] || (erase_writes(
                erase_start(a1),
                values,
            )[i] == FlashWrite::Ar(a1) && erase_writes(erase_start(a2), values)[i]
                == FlashWrite::Ar(a2)),
{
    lemma_erase_address_free(erase_start(a1), erase_start(a2), values);
}

/// Entering programming reads the status first; if an operation is ongoing it
/// ends with an error and writes nothing; otherwise it writes the unlock
/// sequence, reads the control word and sets the programming bit in it, and
/// then polls the status.
pub proof fn law_page_write_sequence(s0: u32, s1: u32, s2: u32, c: u32, s4: u32)
    ensures
        write_action(write_start()) == FlashAction::<()>::ReadStatus,
        is_busy(s0) ==> write_next(write_start(), s0).phase == WritePhase::Done(Err(())),
        !is_busy(s0) ==> ({
            let op1 = write_next(write_start(), s0);
            let op2 = write_next(op1, s1);
            let op3 = write_next(op2, s2);
            let op4 = write_next(op3, c);
            let op5 = write_next(op4, s4);
            &&& write_action(op1) == FlashAction::<()>::Write(unlock_sequence()[0])
            &&& write_action(op2) == FlashAction::<()>::Write(unlock_sequence()[1])
            &&& write_action(op3) == FlashAction::<()>::ReadControl
            &&& write_action(op4) == FlashAction::<()>::Write(FlashWrite::Cr(cr_with_flag(c, CR_PG)))
            &&& op5.phase == WritePhase::WaitIdle
        }),
{
}

/// Entering programming waits while the status reads busy, then succeeds
/// exactly when the end-of-operation flag is set, clearing it; once over it
/// stays over.
pub proof fn law_page_write_outcome(op: WriteSequence, sr: u32, end_sr: u32, any: u32)
    ensures
        op.phase == WritePhase::WaitIdle && is_busy(sr) ==> write_action(write_next(op, sr))
            == FlashAction::<()>::Pause && write_next(write_next(op, sr), any) == op,
        op.phase == WritePhase::WaitIdle && !is_busy(sr) ==> write_next(op, sr).phase
            == WritePhase::CheckEnd,
        op.phase == WritePhase::CheckEnd && !is_end_of_operation(end_sr) ==> write_next(
            op,
            end_sr,
        ).phase == WritePhase::Done(Err(())),
        op.phase == WritePhase::CheckEnd && is_end_of_operation(end_sr) ==> write_action(
            write_next(op, end_sr),
        ) == FlashAction::<()>::Write(FlashWrite::Sr(sr_clear_end())) && write_next(
            write_next(op, end_sr),
            any,
        ).phase == WritePhase::Done(Ok(())),
        op.phase is Done ==> write_next(op, any) == op && write_action(op) == FlashAction::Finish(
            op.phase->Done_0,
        ),
{
}

/// The busy test looks at bit 0 of the status word only, and the
/// end-of-operation test at bit 5 only; the error flags count for neither.
pub proof fn law_status_bits(sr: u32)
    ensures
        is_busy(sr) <==> sr & 0x0000_0001u32 != 0,
        is_end_of_operation(sr) <==> sr & 0x0000_0020u32 != 0,
{
    assert(((sr >> 0u32) & 1u32 == 1u32 <==> sr & 0x0000_0001u32 != 0) && ((sr >> 5u32) & 1u32
        == 1u32 <==> sr & 0x0000_0020u32 != 0)) by (bit_vector);
}

/// The unlock sequence is the two documented keys, 0x45670123 then 0xCDEF89AB.
pub proof fn law_unlock_keys()
    ensures
        unlock_sequence() == seq![FlashWrite::Keyr(0x4567_0123u32), FlashWrite::Keyr(0xCDEF_89ABu32)],
{
}

/// A page erase decides on the status register only: in every phase that
/// checks the busy or end-of-operation flag it asks for a status read; an
/// action that is no read leaves the course of the erase independent of the
/// value handed back; and the control read only records the word read.
pub proof fn law_erase_reads_status(op: EraseSequence, v1: u32, v2: u32)
    ensures
        (op.phase == ErasePhase::CheckIdle || op.phase == ErasePhase::WaitIdle || op.phase
            == ErasePhase::CheckEnd) ==> erase_action(op) == FlashAction::<FlashError>::ReadStatus,
        !(erase_action(op) is ReadStatus) && !(erase_action(op) is ReadControl) ==> erase_next(
            op,
            v1,
        ) == erase_next(op, v2),
        erase_action(op) is ReadControl ==> erase_next(op, v1).phase == erase_next(op, v2).phase
            && erase_next(op, v1).cr == v1,
        erase_action(op) is ReadStatus ==> erase_next(op, v1).cr == op.cr,
{
}

/// Entering programming decides on the status register only, in the same way.
pub proof fn law_write_reads_status(op: WriteSequence, v1: u32, v2: u32)
    ensures
        (op.phase == WritePhase::CheckIdle || op.phase == WritePhase::WaitIdle || op.phase
            == WritePhase::CheckEnd) ==> write_action(op) == FlashAction::<()>::ReadStatus,
        !(write_action(op) is ReadStatus) && !(write_action(op) is ReadControl) ==> write_next(
            op,
            v1,
        ) == write_next(op, v2),
        write_action(op) is ReadControl ==> write_next(op, v1).phase == write_next(op, v2).phase
            && write_next(op, v1).cr == v1,
        write_action(op) is ReadStatus ==> write_next(op, v1).cr == op.cr,
{
}

} // verus!
