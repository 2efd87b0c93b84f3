use rotating_buffer::OverflowBuffer;

#[test]
fn new_overflow_buffer_is_empty() {
    let mut buf = OverflowBuffer::<u8, 32, 8>::new();
    assert!(buf.is_empty());
    assert_eq!(buf.len(), 0);
    assert_eq!(buf.capacity(), 32);
    assert_eq!(buf.primary_capacity(), 24);
    assert_eq!(buf.overflow_capacity(), 8);
    assert_eq!(buf.get_append_only().len(), 24);
    assert_eq!(buf.as_slice().len(), 0);
}

#[test]
fn scenario_primary_twenty_four_overflow_eight() {
    let mut buf = OverflowBuffer::<u8, 32, 8>::new();
    for (i, slot) in buf.get_append_only()[..22].iter_mut().enumerate() {
        *slot = i as u8;
    }
    buf.resize(22);
    assert_eq!(buf.len(), 22);

    buf.overflow_at(17);
    assert_eq!(buf.len(), 5);
    assert_eq!(buf.as_slice(), &[17, 18, 19, 20, 21]);

    assert_eq!(buf.get_append_only().len(), 24);
    for (i, slot) in buf.get_append_only().iter_mut().enumerate() {
        *slot = 100 + i as u8;
    }
    buf.resize(24);
    assert_eq!(buf.len(), 29);
    assert_eq!(&buf.as_slice()[..7], &[17, 18, 19, 20, 21, 100, 101]);

    buf.overflow_at(21);
    assert_eq!(buf.len(), 8);
    assert_eq!(buf.as_slice(), &[116, 117, 118, 119, 120, 121, 122, 123]);
    assert_eq!(buf.get_append_only().len(), 24);
}

#[test]
fn overflow_clears_the_rest_of_storage() {
    let mut buf = OverflowBuffer::<u8, 6, 2>::new();
    buf.get_append_only().copy_from_slice(&[1, 2, 3, 4]);
    buf.resize(4);
    buf.overflow_at(2);
    assert_eq!(buf.as_slice(), &[3, 4]);
    assert_eq!(buf.get_append_only(), &[0, 0, 0, 0]);
}

#[test]
fn overflow_keeps_the_tail_in_order() {
    let mut buf = OverflowBuffer::<u16, 9, 3>::new();
    buf.get_append_only().copy_from_slice(&[9, 8, 7, 6, 5, 4]);
    buf.resize(6);
    for index in 3..=6 {
        let mut copy = buf;
        let before: Vec<u16> = copy.as_slice()[index..].to_vec();
        copy.overflow_at(index);
        assert_eq!(copy.as_slice(), &before[..]);
    }
}

#[test]
fn writable_region_size_is_fixed() {
    let mut buf = OverflowBuffer::<u8, 10, 4>::new();
    assert_eq!(buf.get_append_only().len(), buf.primary_capacity());
    buf.resize(6);
    assert_eq!(buf.get_append_only().len(), 6);
    buf.overflow_at(3);
    assert_eq!(buf.get_append_only().len(), 6);
    buf.resize(1);
    assert_eq!(buf.len(), 4);
    buf.overflow_at(0);
    assert_eq!(buf.len(), 4);
    assert_eq!(buf.get_append_only().len(), 6);
}

#[test]
fn overflow_at_length_empties() {
    let mut buf = OverflowBuffer::<u8, 10, 4>::new();
    buf.resize(5);
    let len = buf.len();
    buf.overflow_at(len);
    assert!(buf.is_empty());
    assert_eq!(buf.get_append_only().len(), 6);
    buf.resize(2);
    assert_eq!(buf.len(), 2);
}

#[test]
fn resize_counts_after_retained() {
    let mut buf = OverflowBuffer::<u8, 8, 3>::new();
    buf.get_append_only().copy_from_slice(&[1, 2, 3, 4, 5]);
    buf.resize(5);
    buf.overflow_at(3);
    buf.get_append_only()[..2].copy_from_slice(&[6, 7]);
    buf.resize(2);
    assert_eq!(buf.as_slice(), &[4, 5, 6, 7]);
    buf.resize(5);
    assert_eq!(buf.len(), 5);
}
