use socks5::server::transfer::{Attempt, ExactTransfer, TransferStatus};

#[test]
fn new_transfer_has_everything_left() {
    let transfer = ExactTransfer::new(4);
    assert_eq!(transfer.len(), 4);
    assert_eq!(transfer.offset(), 0);
    assert_eq!(transfer.remaining(), 4);
    assert_eq!(transfer.status(), TransferStatus::Pending);
}

#[test]
fn transfer_of_nothing_is_complete_at_once() {
    let mut transfer = ExactTransfer::new(0);
    assert_eq!(transfer.status(), TransferStatus::Complete);
    assert_eq!(transfer.remaining(), 0);
    assert_eq!(transfer.advance(Attempt::Transferred(0)), TransferStatus::Complete);
    assert_eq!(transfer.advance(Attempt::Failed), TransferStatus::Complete);
}

#[test]
fn transfer_completes_in_one_attempt() {
    let mut transfer = ExactTransfer::new(4);
    assert_eq!(transfer.advance(Attempt::Transferred(4)), TransferStatus::Complete);
    assert_eq!(transfer.offset(), 4);
    assert_eq!(transfer.remaining(), 0);
    assert_eq!(transfer.status(), TransferStatus::Complete);
}

#[test]
fn transfer_accumulates_partial_attempts() {
    let mut transfer = ExactTransfer::new(16);
    assert_eq!(transfer.advance(Attempt::Transferred(5)), TransferStatus::Pending);
    assert_eq!(transfer.offset(), 5);
    assert_eq!(transfer.remaining(), 11);
    assert_eq!(transfer.advance(Attempt::Transferred(1)), TransferStatus::Pending);
    assert_eq!(transfer.offset(), 6);
    assert_eq!(transfer.advance(Attempt::Transferred(10)), TransferStatus::Complete);
    assert_eq!(transfer.offset(), 16);
    assert_eq!(transfer.len(), 16);
}

#[test]
fn would_block_is_retried() {
    let mut transfer = ExactTransfer::new(2);
    assert_eq!(transfer.advance(Attempt::WouldBlock), TransferStatus::Pending);
    assert_eq!(transfer.offset(), 0);
    assert_eq!(transfer.advance(Attempt::Transferred(1)), TransferStatus::Pending);
    assert_eq!(transfer.advance(Attempt::WouldBlock), TransferStatus::Pending);
    assert_eq!(transfer.advance(Attempt::WouldBlock), TransferStatus::Pending);
    assert_eq!(transfer.offset(), 1);
    assert_eq!(transfer.advance(Attempt::Transferred(1)), TransferStatus::Complete);
}

#[test]
fn peer_closing_early_fails_the_transfer() {
    let mut transfer = ExactTransfer::new(4);
    assert_eq!(transfer.advance(Attempt::Transferred(3)), TransferStatus::Pending);
    assert_eq!(transfer.advance(Attempt::Transferred(0)), TransferStatus::Failed);
    assert_eq!(transfer.offset(), 3);
    assert_eq!(transfer.status(), TransferStatus::Failed);

    let mut transfer = ExactTransfer::new(4);
    assert_eq!(transfer.advance(Attempt::Transferred(0)), TransferStatus::Failed);
    assert_eq!(transfer.offset(), 0);
}

#[test]
fn stream_error_fails_the_transfer() {
    let mut transfer = ExactTransfer::new(4);
    assert_eq!(transfer.advance(Attempt::Transferred(2)), TransferStatus::Pending);
    assert_eq!(transfer.advance(Attempt::Failed), TransferStatus::Failed);
    assert_eq!(transfer.offset(), 2);
    assert_eq!(transfer.remaining(), 2);
}

#[test]
fn more_bytes_than_missing_fail_the_transfer() {
    let mut transfer = ExactTransfer::new(4);
    assert_eq!(transfer.advance(Attempt::Transferred(3)), TransferStatus::Pending);
    assert_eq!(transfer.advance(Attempt::Transferred(2)), TransferStatus::Failed);
    assert_eq!(transfer.offset(), 3);

    let mut transfer = ExactTransfer::new(1);
    assert_eq!(transfer.advance(Attempt::Transferred(usize::MAX)), TransferStatus::Failed);
    assert_eq!(transfer.offset(), 0);
}

#[test]
fn failed_transfer_stays_failed() {
    let mut transfer = ExactTransfer::new(4);
    transfer.advance(Attempt::Failed);
    assert_eq!(transfer.advance(Attempt::Transferred(4)), TransferStatus::Failed);
    assert_eq!(transfer.advance(Attempt::WouldBlock), TransferStatus::Failed);
    assert_eq!(transfer.offset(), 0);
}

#[test]
fn complete_transfer_stays_complete() {
    let mut transfer = ExactTransfer::new(3);
    transfer.advance(Attempt::Transferred(3));
    assert_eq!(transfer.advance(Attempt::Transferred(1)), TransferStatus::Complete);
    assert_eq!(transfer.advance(Attempt::Transferred(0)), TransferStatus::Complete);
    assert_eq!(transfer.advance(Attempt::Failed), TransferStatus::Complete);
    assert_eq!(transfer.advance(Attempt::WouldBlock), TransferStatus::Complete);
    assert_eq!(transfer.offset(), 3);
}

#[test]
fn counts_add_up_to_the_length_at_completion() {
    let attempts = [
        Attempt::WouldBlock,
        Attempt::Transferred(1000),
        Attempt::Transferred(1),
        Attempt::WouldBlock,
        Attempt::Transferred(3095),
    ];
    let mut transfer = ExactTransfer::new(4096);
    let mut moved: usize = 0;
    let mut status = transfer.status();
    for attempt in attempts {
        assert_eq!(status, TransferStatus::Pending);
        if let Attempt::Transferred(count) = attempt {
            moved += count;
        }
        status = transfer.advance(attempt);
        assert_eq!(transfer.offset(), moved);
    }
    assert_eq!(status, TransferStatus::Complete);
    assert_eq!(moved, 4096);
}

#[test]
fn largest_transfer_does_not_overflow() {
    let mut transfer = ExactTransfer::new(usize::MAX);
    assert_eq!(transfer.advance(Attempt::Transferred(usize::MAX - 1)), TransferStatus::Pending);
    assert_eq!(transfer.remaining(), 1);
    assert_eq!(transfer.advance(Attempt::Transferred(2)), TransferStatus::Failed);
    let mut transfer = ExactTransfer::new(usize::MAX);
    transfer.advance(Attempt::Transferred(usize::MAX - 1));
    assert_eq!(transfer.advance(Attempt::Transferred(1)), TransferStatus::Complete);
}
