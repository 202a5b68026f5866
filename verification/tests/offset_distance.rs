use nuke::BufferPtr;
use nuke::OffsetTo;

#[test]
fn zero_stride_has_no_distance() {
    let a = BufferPtr { addr: 100, stride: 0 };
    let b = BufferPtr { addr: 200, stride: 0 };
    assert_eq!(a.ptr_offset_to(b), None);
}

#[test]
fn forward_distance_counts_whole_elements() {
    let a = BufferPtr { addr: 100, stride: 20 };
    let b = BufferPtr { addr: 200, stride: 20 };
    assert_eq!(a.ptr_offset_to(b), Some(5));
    assert_eq!(a.ptr_offset_to(a), Some(0));
    // a partial element does not count
    let c = BufferPtr { addr: 219, stride: 20 };
    assert_eq!(a.ptr_offset_to(c), Some(5));
}

#[test]
fn backward_distance_wraps_like_pointer_subtraction() {
    let a = BufferPtr { addr: 200, stride: 20 };
    let b = BufferPtr { addr: 100, stride: 20 };
    // -5 in two's complement
    assert_eq!(a.ptr_offset_to(b), Some(usize::MAX - 4));
    // less than one element back rounds to zero
    let c = BufferPtr { addr: 190, stride: 20 };
    assert_eq!(a.ptr_offset_to(c), Some(0));
}
