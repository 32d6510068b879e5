use jajo::buffers::PendingBuffers;

#[test]
fn lent_buffer_comes_back_unchanged() {
    let mut p = PendingBuffers::new();
    let t = p.lend(vec![69u8; 128]);
    assert!(p.holds(t));
    assert_eq!(p.buffer(t).map(|b| b.len()), Some(128));
    let back = p.release(t).unwrap();
    assert_eq!(back, vec![69u8; 128]);
    assert!(!p.holds(t));
    assert!(p.release(t).is_none());
}

#[test]
fn tokens_in_flight_are_distinct_and_reused_after_release() {
    let mut p = PendingBuffers::new();
    let a = p.lend(vec![1]);
    let b = p.lend(vec![2]);
    let c = p.lend(vec![3]);
    assert_ne!(a, b);
    assert_ne!(b, c);
    assert_ne!(a, c);
    assert_eq!(p.release(b), Some(vec![2]));
    let d = p.lend(vec![4]);
    assert_eq!(d, b);
    assert_eq!(p.buffer(a), Some(&vec![1]));
    assert_eq!(p.buffer(d), Some(&vec![4]));
}

#[test]
fn buffer_filled_in_place_is_what_is_released() {
    let mut p = PendingBuffers::new();
    let t = p.lend(vec![0u8; 4]);
    {
        let b = p.buffer_mut(t).unwrap();
        b.copy_from_slice(&[69, 69, 69, 69]);
    }
    assert_eq!(p.release(t), Some(vec![69u8; 4]));
    assert!(p.buffer_mut(t).is_none());
    assert!(p.buffer(99).is_none());
}
