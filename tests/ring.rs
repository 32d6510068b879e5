use jajo::cqueue::CQE;
use jajo::flags::SubmissionFlags;
use jajo::squeue::{SubmissionQueue, IORING_OP_NOP, IORING_OP_READ, IORING_OP_WRITE, SQE};
use jajo::{IoUring, RingError, SetupFeatures, SetupFlags};

fn flags(bits: u32) -> SetupFlags {
    SetupFlags::from_bits_truncate(bits)
}

fn ring(entries: u32) -> IoUring {
    IoUring::new_with_flags(entries, SetupFlags::empty(), SetupFeatures::default()).unwrap()
}

fn config_error(entries: u32, bits: u32) -> bool {
    matches!(
        IoUring::new_with_flags(entries, flags(bits), SetupFeatures::default()),
        Err(RingError::Config)
    )
}

#[test]
fn ring_sizes_round_up_to_powers_of_two() {
    let r = ring(4);
    assert_eq!(r.sq_entries(), 4);
    assert_eq!(r.cq_entries(), 8);
    let r = ring(5);
    assert_eq!(r.sq_entries(), 8);
    assert_eq!(r.cq_entries(), 16);
    let r = ring(1);
    assert_eq!(r.sq_entries(), 1);
    assert_eq!(r.pending_len(), 0);
    assert_eq!(r.ready_len(), 0);
}

#[test]
fn zero_entries_is_config_error() {
    assert!(config_error(0, 0));
}

#[test]
fn too_many_entries_are_refused_or_clamped() {
    assert!(config_error(32769, 0));
    let r = IoUring::new_with_flags(40000, flags(SetupFlags::IORING_SETUP_CLAMP), SetupFeatures::default()).unwrap();
    assert_eq!(r.sq_entries(), 32768);
    assert_eq!(r.cq_entries(), 65536);
}

#[test]
fn large_entry_flags_are_kept() {
    let f = flags(SetupFlags::IORING_SETUP_SQE128 | SetupFlags::IORING_SETUP_CQE32);
    let feats = SetupFeatures::from_bits_truncate(SetupFeatures::IORING_FEAT_NODROP);
    let r = IoUring::new_with_flags(1024, f, feats).unwrap();
    assert_eq!(r.sq_entries(), 1024);
    assert_eq!(r.flags().bits(), 0xc00);
    assert_eq!(r.features().bits(), 0x2);
}

#[test]
fn unsupported_flag_combinations_are_config_errors() {
    assert!(config_error(8, SetupFlags::IORING_SETUP_CQSIZE));
    assert!(config_error(8, SetupFlags::IORING_SETUP_SQ_AFF));
    assert!(config_error(8, SetupFlags::IORING_SETUP_SQPOLL | SetupFlags::IORING_SETUP_COOP_TASKRUN));
    assert!(config_error(8, SetupFlags::IORING_SETUP_TASKRUN_FLAG));
    assert!(config_error(8, SetupFlags::IORING_SETUP_DEFER_TASKRUN));
    assert!(config_error(8, SetupFlags::IORING_SETUP_REGISTERED_FD_ONLY));
}

#[test]
fn supported_flag_combinations_are_accepted() {
    assert!(!config_error(8, SetupFlags::IORING_SETUP_SQPOLL | SetupFlags::IORING_SETUP_SQ_AFF));
    assert!(!config_error(8, SetupFlags::IORING_SETUP_COOP_TASKRUN | SetupFlags::IORING_SETUP_TASKRUN_FLAG));
    assert!(!config_error(8, SetupFlags::IORING_SETUP_DEFER_TASKRUN | SetupFlags::IORING_SETUP_SINGLE_ISSUER));
}

#[test]
fn prepared_slot_is_zeroed_after_reuse() {
    let mut r = ring(2);
    for round in 0..3u64 {
        for k in 0..2u64 {
            let e = r.prepare_sqe().unwrap();
            assert_eq!(*e, SQE::new());
            e.prepare_write(0x1000 + k, 64, 7, 512);
            e.set_user_data(round * 10 + k);
            e.set_flags(SubmissionFlags::from_bits_truncate(SubmissionFlags::IOSQE_IO_LINK));
        }
        let batch = r.take_submissions();
        assert_eq!(batch.len(), 2);
    }
}

#[test]
fn batch_holds_each_prepared_entry_in_order() {
    let mut r = ring(8);
    for t in 0..3u64 {
        let e = r.prepare_sqe().unwrap();
        e.prepare_nop();
        e.set_user_data(100 + t);
    }
    assert_eq!(r.pending_len(), 3);
    let batch = r.take_submissions();
    assert_eq!(batch.len(), 3);
    let tokens: Vec<u64> = batch.iter().map(|e| e.user_data).collect();
    assert_eq!(tokens, vec![100, 101, 102]);
    assert_eq!(r.pending_len(), 0);
    assert!(r.take_submissions().is_empty());
}

#[test]
fn full_ring_returns_none_until_submitted() {
    let mut r = ring(4);
    for _ in 0..4 {
        assert!(r.prepare_sqe().is_some());
    }
    assert!(r.prepare_sqe().is_none());
    assert!(r.prepare_sqe().is_none());
    assert_eq!(r.take_submissions().len(), 4);
    assert!(r.prepare_sqe().is_some());
}

#[test]
fn submission_queue_alone_signals_full() {
    let mut q = SubmissionQueue::new(3);
    assert_eq!(q.capacity(), 3);
    for _ in 0..3 {
        assert!(q.prepare_sqe().is_some());
    }
    assert!(q.prepare_sqe().is_none());
    assert_eq!(q.len(), 3);
    assert_eq!(q.take_pending().len(), 3);
    assert_eq!(q.len(), 0);
}

#[test]
fn nop_token_comes_back_in_its_completion() {
    let mut r = ring(4);
    let e = r.prepare_sqe().unwrap();
    e.prepare_nop();
    e.set_user_data(0x5eed);
    let batch = r.take_submissions();
    for sqe in batch.iter() {
        assert!(r.deliver_cqe(CQE::new(sqe.user_data, 0, 0)));
    }
    let c = r.peek_cqe().unwrap();
    assert_eq!(c.user_data(), 0x5eed);
    assert_eq!(c.result(), 0);
}

#[test]
fn observed_completion_is_not_returned_again() {
    let mut r = ring(2);
    assert!(r.deliver_cqe(CQE::new(1, 0, 0)));
    assert!(r.deliver_cqe(CQE::new(2, 5, 0)));
    assert_eq!(r.ready_len(), 2);
    assert_eq!(r.peek_cqe().unwrap().user_data(), 1);
    assert_eq!(r.peek_cqe().unwrap().user_data(), 2);
    assert!(r.peek_cqe().is_none());
    assert!(r.peek_cqe().is_none());
    assert_eq!(r.ready_len(), 0);
}

#[test]
fn full_completion_ring_refuses_delivery() {
    let mut r = ring(1);
    assert_eq!(r.cq_entries(), 2);
    assert!(r.deliver_cqe(CQE::new(1, 0, 0)));
    assert!(r.deliver_cqe(CQE::new(2, 0, 0)));
    assert!(!r.deliver_cqe(CQE::new(3, 0, 0)));
    assert_eq!(r.peek_cqe().unwrap().user_data(), 1);
    assert!(r.deliver_cqe(CQE::new(3, 0, 0)));
    assert_eq!(r.peek_cqe().unwrap().user_data(), 2);
    assert_eq!(r.peek_cqe().unwrap().user_data(), 3);
}

#[test]
fn write_and_read_descriptors_carry_their_operands() {
    let mut w = SQE::new();
    w.prepare_write(0x7000, 128, 3, 0);
    assert_eq!(w.opcode, IORING_OP_WRITE);
    assert_eq!((w.fd, w.addr, w.len, w.off), (3, 0x7000, 128, 0));
    let mut r = SQE::new();
    r.prepare_read(0x9000, 128, 3, 0);
    assert_eq!(r.opcode, IORING_OP_READ);
    assert_eq!((r.fd, r.addr, r.len, r.off), (3, 0x9000, 128, 0));
    r.prepare_nop();
    assert_eq!(r.opcode, IORING_OP_NOP);
    assert_eq!((r.fd, r.addr, r.len, r.off), (-1, 0, 0, 0));
    r.clear();
    assert_eq!(r, SQE::new());
}

fn run_nops(r: &mut IoUring, n: u64) -> usize {
    let mut next: u64 = 0;
    let mut seen = 0usize;
    while next < n {
        while next < n {
            match r.prepare_sqe() {
                Some(e) => {
                    e.prepare_nop();
                    e.set_user_data(next);
                    next += 1;
                }
                None => break,
            }
        }
        for sqe in r.take_submissions().iter() {
            assert!(r.deliver_cqe(CQE::new(sqe.user_data, 0, 0)));
        }
        while let Some(c) = r.peek_cqe() {
            assert!(c.result() >= 0);
            assert_eq!(c.user_data(), seen as u64);
            seen += 1;
        }
    }
    seen
}

#[test]
fn every_nop_completes_once_at_the_boundaries() {
    let mut r = ring(8);
    assert_eq!(run_nops(&mut r, 1), 1);
    let mut r = ring(8);
    assert_eq!(run_nops(&mut r, 8), 8);
    let mut r = ring(8);
    assert_eq!(run_nops(&mut r, 9), 9);
}

#[test]
fn descriptor_names_itself() {
    assert_eq!(SQE::new().to_string(), "SQE");
}
