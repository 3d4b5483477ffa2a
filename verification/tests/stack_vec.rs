use visor::stack_vec::StackVec;

#[test]
fn test_push_until_full() {
    let storage = vec![0u8; 3];
    let mut v = StackVec::new(storage);
    assert_eq!(v.capacity(), 3);
    assert!(v.is_empty());
    assert!(v.push(10).is_ok());
    assert!(v.push(20).is_ok());
    assert!(v.push(30).is_ok());
    assert!(v.is_full());
    assert!(v.push(40).is_err());
    assert_eq!(v.as_slice(), &[10, 20, 30]);
}

#[test]
fn test_pop_returns_last() {
    let storage = vec![0u8; 4];
    let mut v = StackVec::new(storage);
    v.push(1).unwrap();
    v.push(2).unwrap();
    assert_eq!(v.pop(), Some(2));
    assert_eq!(v.pop(), Some(1));
    assert_eq!(v.pop(), None);
}

#[test]
fn test_with_len_counts_prefix() {
    let storage = vec![7u8, 8, 9, 0];
    let v = StackVec::with_len(storage, 3);
    assert_eq!(v.len(), 3);
    assert_eq!(v.as_slice(), &[7, 8, 9]);
}

#[test]
fn test_truncate_keeps_prefix() {
    let storage = vec![1u8, 2, 3, 4];
    let mut v = StackVec::with_len(storage, 4);
    v.truncate(2);
    assert_eq!(v.as_slice(), &[1, 2]);
    v.truncate(5);
    assert_eq!(v.len(), 2);
}

#[test]
fn test_into_slice_drops_capacity() {
    let storage = vec![5u8, 6, 7, 8];
    let v = StackVec::with_len(storage, 2);
    assert_eq!(v.into_slice(), vec![5, 6]);
}
