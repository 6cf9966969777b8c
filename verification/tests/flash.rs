use stm32f3xx_hal::flash::{
    busy, end_of_operation, unlock_cr, ErasePhase, EraseSequence, FlashAction, FlashError,
    FlashWrite, WritePhase, WriteSequence, FLASH_KEYR_KEY_1, FLASH_KEYR_KEY_2,
};

const BSY: u32 = 1 << 0;
const EOP: u32 = 1 << 5;

/// Runs an erase, answering each read with the next of `reads`; returns the
/// writes, the number of pauses and the outcome.
fn run_erase(address: u32, reads: &[u32]) -> (Vec<FlashWrite>, usize, Result<(), FlashError>) {
    let mut op = EraseSequence::new(address);
    let mut reads = reads.iter();
    let mut writes = Vec::new();
    let mut pauses = 0;
    loop {
        match op.action() {
            FlashAction::ReadStatus | FlashAction::ReadControl => {
                let v = *reads.next().expect("read beyond the scenario");
                op.step(v);
            }
            FlashAction::Write(w) => {
                writes.push(w);
                op.step(0);
            }
            FlashAction::Pause => {
                pauses += 1;
                op.step(0);
            }
            FlashAction::Finish(result) => return (writes, pauses, result),
        }
    }
}

fn run_page_write(reads: &[u32]) -> (Vec<FlashWrite>, usize, Result<(), ()>) {
    let mut op = WriteSequence::new();
    let mut reads = reads.iter();
    let mut writes = Vec::new();
    let mut pauses = 0;
    loop {
        match op.action() {
            FlashAction::ReadStatus | FlashAction::ReadControl => op.step(*reads.next().unwrap()),
            FlashAction::Write(w) => {
                writes.push(w);
                op.step(0);
            }
            FlashAction::Pause => {
                pauses += 1;
                op.step(0);
            }
            FlashAction::Finish(result) => return (writes, pauses, result),
        }
    }
}

#[test]
fn status_bits() {
    assert!(busy(BSY));
    assert!(!busy(EOP));
    assert!(end_of_operation(EOP | BSY));
    assert!(!end_of_operation(BSY));
}

#[test]
fn unlock_writes_both_keys_in_order() {
    assert_eq!(
        unlock_cr(),
        vec![FlashWrite::Keyr(0x4567_0123), FlashWrite::Keyr(0xCDEF_89AB)]
    );
    assert_eq!(FLASH_KEYR_KEY_1, 0x4567_0123);
    assert_eq!(FLASH_KEYR_KEY_2, 0xCDEF_89AB);
}

#[test]
fn erase_refused_when_busy() {
    let (writes, pauses, result) = run_erase(0x0800_F800, &[BSY]);
    assert!(writes.is_empty());
    assert_eq!(pauses, 0);
    assert_eq!(result, Err(FlashError::Busy));
}

#[test]
fn erase_full_sequence() {
    let address = 0x1000_0000 - 0x800;
    let (writes, pauses, result) = run_erase(address, &[0, 0, BSY, BSY, 0, EOP]);
    assert_eq!(
        writes,
        vec![
            FlashWrite::Keyr(FLASH_KEYR_KEY_1),
            FlashWrite::Keyr(FLASH_KEYR_KEY_2),
            FlashWrite::Cr(0x02),
            FlashWrite::Ar(address),
            FlashWrite::Cr(0x42),
            FlashWrite::Sr(0x20),
        ]
    );
    assert_eq!(pauses, 2);
    assert_eq!(result, Ok(()));
}

#[test]
fn erase_keeps_other_control_bits() {
    // Interrupt enables (bits 10 and 12) read back from the control register stay set.
    let (writes, _, result) = run_erase(0x0800_0000, &[0, 0x1400, 0, EOP | BSY]);
    assert_eq!(writes[2], FlashWrite::Cr(0x1402));
    assert_eq!(writes[4], FlashWrite::Cr(0x1442));
    assert_eq!(result, Ok(()));
}

#[test]
fn erase_fails_without_end_of_operation() {
    let (writes, pauses, result) = run_erase(0x0800_0000, &[0, 0, 0, 0]);
    assert_eq!(writes.len(), 5);
    assert_eq!(pauses, 0);
    assert_eq!(result, Err(FlashError::EraseFailed));
}

#[test]
fn erase_outcome_does_not_depend_on_address() {
    let reads = [0, 0, BSY, 0, EOP];
    let (w1, p1, r1) = run_erase(0x0800_0000, &reads);
    let (w2, p2, r2) = run_erase(0x0800_0800, &reads);
    assert_eq!((p1, r1), (p2, r2));
    assert_eq!(w1.len(), w2.len());
    assert_eq!(w1[3], FlashWrite::Ar(0x0800_0000));
    assert_eq!(w2[3], FlashWrite::Ar(0x0800_0800));
}

#[test]
fn erase_done_stays_done() {
    let mut op = EraseSequence { phase: ErasePhase::Done(Err(FlashError::EraseFailed)), address: 7, cr: 0 };
    op.step(BSY);
    assert_eq!(op.phase, ErasePhase::Done(Err(FlashError::EraseFailed)));
    assert_eq!(op.action(), FlashAction::Finish(Err(FlashError::EraseFailed)));
}

#[test]
fn page_write_refused_when_busy() {
    let (writes, _, result) = run_page_write(&[BSY | EOP]);
    assert!(writes.is_empty());
    assert_eq!(result, Err(()));
}

#[test]
fn page_write_succeeds_on_end_of_operation() {
    let (writes, pauses, result) = run_page_write(&[0, 0, BSY, 0, EOP]);
    assert_eq!(
        writes,
        vec![
            FlashWrite::Keyr(FLASH_KEYR_KEY_1),
            FlashWrite::Keyr(FLASH_KEYR_KEY_2),
            FlashWrite::Cr(0x01),
            FlashWrite::Sr(0x20),
        ]
    );
    assert_eq!(pauses, 1);
    assert_eq!(result, Ok(()));
    assert_eq!(WriteSequence::new().phase, WritePhase::CheckIdle);
}

#[test]
fn page_write_fails_without_end_of_operation() {
    let (writes, _, result) = run_page_write(&[0, 0, 0, 0]);
    assert_eq!(writes.len(), 3);
    assert_eq!(result, Err(()));
}
