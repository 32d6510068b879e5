use jajo::cqueue::CQE;
use jajo::flags::{CompletionFlags, SubmissionFlags};
use jajo::{SetupFeatures, SetupFlags};

#[test]
fn setup_flags_union_and_contains() {
    let a = SetupFlags::from_bits_truncate(SetupFlags::IORING_SETUP_SQE128);
    let b = SetupFlags::from_bits_truncate(SetupFlags::IORING_SETUP_CQE32);
    let both = a.union(b);
    assert_eq!(both.bits(), 0x400 | 0x800);
    assert!(both.contains(a));
    assert!(both.contains(b));
    assert!(!a.contains(both));
    assert!(a.intersects(both));
    assert!(!a.intersects(b));
    assert_eq!(both.intersection(a).bits(), 0x400);
}

#[test]
fn setup_flags_default_is_empty() {
    let d = SetupFlags::default();
    assert!(d.is_empty());
    assert_eq!(d.bits(), 0);
    assert_eq!(SetupFeatures::default().bits(), 0);
    assert!(SetupFeatures::empty().is_empty());
}

#[test]
fn from_bits_truncate_drops_unknown_bits() {
    assert_eq!(SetupFlags::from_bits_truncate(0xffff_ffff).bits(), 0x1_ffff);
    assert_eq!(SetupFeatures::from_bits_truncate(0xffff_ffff).bits(), 0xffff);
    assert_eq!(SubmissionFlags::from_bits_truncate(0xffff_ffff).bits(), 0x7f);
    assert_eq!(CompletionFlags::from_bits_truncate(0xffff_ffff).bits(), 0x1f);
    assert_eq!(SetupFlags::all().bits(), 0x1_ffff);
}

#[test]
fn from_bits_refuses_unknown_bits() {
    assert!(SetupFlags::from_bits(0x2_0000).is_none());
    assert_eq!(SetupFlags::from_bits(0x3).map(|f| f.bits()), Some(0x3));
    assert!(CompletionFlags::from_bits(0x20).is_none());
    assert_eq!(CompletionFlags::from_bits(CompletionFlags::IORING_CQE_BUFFER_SHIFT).map(|f| f.bits()), Some(0x10));
}

#[test]
fn insert_and_remove_flags() {
    let mut f = SubmissionFlags::empty();
    f.insert(SubmissionFlags::from_bits_truncate(SubmissionFlags::IOSQE_IO_LINK));
    f.insert(SubmissionFlags::from_bits_truncate(SubmissionFlags::IOSQE_IO_DRAIN));
    assert_eq!(f.bits(), 0x6);
    f.remove(SubmissionFlags::from_bits_truncate(SubmissionFlags::IOSQE_IO_LINK));
    assert_eq!(f.bits(), 0x2);
}

#[test]
fn completion_entry_keeps_token_and_result() {
    let c = CQE::new(0xdead_beef, -11, CompletionFlags::IORING_CQE_F_MORE);
    assert_eq!(c.user_data(), 0xdead_beef);
    assert_eq!(c.result(), -11);
    assert_eq!(c.flags().bits(), 0x2);
}

#[test]
fn completion_entry_drops_unknown_flag_bits() {
    let c = CQE::new(1, 0, 0x0005_0003);
    assert_eq!(c.flags().bits(), 0x3);
}
