use vec_min::{range_len, Bound, IndexRange, ModifyError, VecMin};

fn vm2(items: Vec<i32>) -> VecMin<i32, 2> {
    VecMin::new(items).unwrap()
}

fn span(start: Bound, end: Bound) -> IndexRange {
    IndexRange { start, end }
}

#[test]
fn pop_until_floor() {
    let mut v = vm2(vec![1, 2, 3]);
    assert_eq!(v.pop(), Ok(Some(3)));
    assert_eq!(*v, vec![1, 2]);
    assert_eq!(v.pop(), Err(ModifyError::<2>));
    assert_eq!(*v, vec![1, 2]);
}

#[test]
fn pop_to_min_at_floor_does_nothing() {
    let mut v = vm2(vec![1, 2]);
    assert_eq!(v.pop_to_min(), None);
    assert_eq!(*v, vec![1, 2]);
    let mut w = vm2(vec![1, 2, 3]);
    assert_eq!(w.pop_to_min(), Some(3));
    assert_eq!(*w, vec![1, 2]);
}

#[test]
fn drain_middle() {
    let mut v = vm2(vec![1, 2, 3, 4]);
    let d = v.drain(span(Bound::Included(1), Bound::Excluded(3))).unwrap();
    assert_eq!(d, vec![2, 3]);
    assert_eq!(*v, vec![1, 4]);
}

#[test]
fn drain_below_floor_is_refused() {
    let mut v = vm2(vec![1, 2]);
    assert_eq!(
        v.drain(span(Bound::Included(0), Bound::Excluded(2))),
        Err(ModifyError::<2>)
    );
    assert_eq!(*v, vec![1, 2]);
}

#[test]
fn new_rejects_short_input() {
    let r = VecMin::<i32, 1>::new(vec![]);
    assert_eq!(r, Err(vec![]));
    let r = VecMin::<i32, 3>::new(vec![7, 8]);
    assert_eq!(r, Err(vec![7, 8]));
}

#[test]
fn default_fills_floor() {
    let v = VecMin::<i32, 3>::default();
    assert_eq!(*v, vec![0, 0, 0]);
}

#[test]
fn round_trip_through_inner() {
    let v = vm2(vec![5, 6, 7]);
    let back = VecMin::<i32, 2>::new(v.clone().into_inner()).unwrap();
    assert_eq!(back, v);
    let w: Vec<i32> = v.clone().into();
    assert_eq!(w, vec![5, 6, 7]);
}

#[test]
fn try_from_vec() {
    let ok: Result<VecMin<i32, 2>, Vec<i32>> = VecMin::try_from(vec![1, 2]);
    assert_eq!(*ok.unwrap(), vec![1, 2]);
    let bad: Result<VecMin<i32, 2>, Vec<i32>> = VecMin::try_from(vec![1]);
    assert_eq!(bad, Err(vec![1]));
}

#[test]
fn collect_checks_length() {
    let v = VecMin::<i32, 2>::collect(vec![1, 2, 3]).unwrap();
    assert_eq!(*v, vec![1, 2, 3]);
    assert!(v.capacity() >= 3);
    assert_eq!(VecMin::<i32, 2>::collect(vec![9]), Err(vec![9]));
    let w = VecMin::<i32, 2>::collect_with_capacity(vec![1, 2], 10).unwrap();
    assert_eq!(*w, vec![1, 2]);
    assert!(w.capacity() >= 12);
    assert_eq!(
        VecMin::<i32, 2>::collect_with_capacity(vec![], 4),
        Err(vec![])
    );
}

#[test]
fn min_len_and_min_slice() {
    let v = vm2(vec![4, 5, 6]);
    assert_eq!(v.min_len(), 2);
    assert_eq!(v.min_slice(), &[4, 5]);
}

#[test]
fn remove_and_swap_remove() {
    let mut v = vm2(vec![1, 2, 3, 4]);
    assert_eq!(v.remove(1), Ok(2));
    assert_eq!(*v, vec![1, 3, 4]);
    assert_eq!(v.swap_remove(0), Ok(1));
    assert_eq!(*v, vec![4, 3]);
    assert_eq!(v.remove(0), Err(ModifyError::<2>));
    assert_eq!(v.swap_remove(1), Err(ModifyError::<2>));
    assert_eq!(*v, vec![4, 3]);
}

#[test]
fn truncate_variants() {
    let mut v = vm2(vec![1, 2, 3, 4, 5]);
    assert_eq!(v.truncate(1), Err(ModifyError::<2>));
    assert_eq!(*v, vec![1, 2, 3, 4, 5]);
    assert_eq!(v.truncate(4), Ok(()));
    assert_eq!(*v, vec![1, 2, 3, 4]);
    assert_eq!(v.truncate(10), Ok(()));
    assert_eq!(*v, vec![1, 2, 3, 4]);
    v.truncate_or_min(3);
    assert_eq!(*v, vec![1, 2, 3]);
    v.truncate_or_min(0);
    assert_eq!(*v, vec![1, 2]);
    let mut w = vm2(vec![1, 2, 3, 4]);
    w.truncate_to_min();
    assert_eq!(*w, vec![1, 2]);
}

#[test]
fn resize_variants() {
    let mut v = vm2(vec![1, 2, 3]);
    assert_eq!(v.resize(1, 0), Err(ModifyError::<2>));
    assert_eq!(*v, vec![1, 2, 3]);
    assert_eq!(v.resize(5, 9), Ok(()));
    assert_eq!(*v, vec![1, 2, 3, 9, 9]);
    v.resize_or_min(0, 7);
    assert_eq!(*v, vec![1, 2]);
    v.resize_or_min(3, 7);
    assert_eq!(*v, vec![1, 2, 7]);
}

#[test]
fn resize_with_generator() {
    let mut v = vm2(vec![1, 2]);
    assert_eq!(v.resize_with(0, || 5), Err(ModifyError::<2>));
    assert_eq!(*v, vec![1, 2]);
    assert_eq!(v.resize_with(4, || 5), Ok(()));
    assert_eq!(*v, vec![1, 2, 5, 5]);
    v.resize_or_min_with(1, || 6);
    assert_eq!(*v, vec![1, 2]);
    v.resize_or_min_with(3, || 6);
    assert_eq!(*v, vec![1, 2, 6]);
}

#[test]
fn clamped_matches_floor_where_checked_fails() {
    let mut a = vm2(vec![1, 2, 3]);
    let mut b = a.clone();
    assert!(a.truncate(1).is_err());
    b.truncate_or_min(1);
    assert_eq!(b.len(), 2);
    let mut c = vm2(vec![1, 2, 3]);
    let mut d = c.clone();
    assert!(c.resize(0, 4).is_err());
    d.resize_or_min(0, 4);
    assert_eq!(d.len(), 2);
    let mut e = vm2(vec![1, 2]);
    let mut f = e.clone();
    assert!(e.pop().is_err());
    assert_eq!(f.pop_to_min(), None);
    assert_eq!(f.len(), 2);
}

#[test]
fn splice_replaces_range() {
    let mut v = vm2(vec![1, 2, 3, 4]);
    let removed = v
        .splice(span(Bound::Included(1), Bound::Included(2)), vec![8])
        .unwrap();
    assert_eq!(removed, vec![2, 3]);
    assert_eq!(*v, vec![1, 8, 4]);
    let removed = v
        .splice(span(Bound::Unbounded, Bound::Unbounded), vec![5, 6])
        .unwrap();
    assert_eq!(removed, vec![1, 8, 4]);
    assert_eq!(*v, vec![5, 6]);
}

#[test]
fn splice_below_floor_is_refused() {
    let mut v = vm2(vec![1, 2, 3]);
    assert_eq!(
        v.splice(span(Bound::Excluded(0), Bound::Unbounded), vec![]),
        Err(ModifyError::<2>)
    );
    assert_eq!(*v, vec![1, 2, 3]);
}

#[test]
fn growth_operations() {
    let mut v = vm2(vec![1, 2]);
    v.push(3);
    v.insert(0, 0);
    assert_eq!(*v, vec![0, 1, 2, 3]);
    let mut other = vec![4, 5];
    v.append(&mut other);
    assert!(other.is_empty());
    v.extend_from_slice(&[6]);
    assert_eq!(*v, vec![0, 1, 2, 3, 4, 5, 6]);
    v.extend_from_within(span(Bound::Included(1), Bound::Excluded(3)));
    assert_eq!(*v, vec![0, 1, 2, 3, 4, 5, 6, 1, 2]);
}

#[test]
fn capacity_operations_keep_elements() {
    let mut v = vm2(vec![1, 2]);
    v.reserve(10);
    assert!(v.capacity() >= 12);
    v.reserve_exact(20);
    assert!(v.capacity() >= 22);
    assert!(v.try_reserve(5).is_ok());
    assert!(v.try_reserve_exact(5).is_ok());
    v.shrink_to(4);
    assert!(v.capacity() >= 2);
    v.shrink_to_fit();
    assert!(v.capacity() >= 2);
    assert_eq!(*v, vec![1, 2]);
}

#[test]
fn extraction_keeps_elements() {
    let v = vm2(vec![3, 1, 2]);
    let b = v.clone().into_boxed_slice();
    assert_eq!(&*b, &[3, 1, 2]);
    let l = v.clone().leak();
    l[0] = 9;
    assert_eq!(l, &[9, 1, 2]);
    assert_eq!(v.as_slice(), &[3, 1, 2]);
    assert_eq!(v.as_vec(), &vec![3, 1, 2]);
    let r: &[i32] = v.as_ref();
    assert_eq!(r, &[3, 1, 2]);
}

#[test]
fn range_len_counts() {
    assert_eq!(range_len(&span(Bound::Included(1), Bound::Excluded(3)), 10), 2);
    assert_eq!(range_len(&span(Bound::Excluded(1), Bound::Included(3)), 10), 2);
    assert_eq!(range_len(&span(Bound::Unbounded, Bound::Unbounded), 7), 7);
    assert_eq!(range_len(&span(Bound::Included(5), Bound::Excluded(2)), 10), 0);
    assert_eq!(
        range_len(&span(Bound::Excluded(usize::MAX), Bound::Unbounded), 3),
        0
    );
    assert_eq!(
        range_len(&span(Bound::Included(0), Bound::Included(usize::MAX)), 3),
        usize::MAX
    );
}

#[test]
fn error_message_names_minimum() {
    assert_eq!(
        ModifyError::<2>.message(),
        "operation would reduce length below minimum required 2"
    );
    assert_eq!(
        ModifyError::<305>.message(),
        "operation would reduce length below minimum required 305"
    );
}

#[test]
fn conversions_from_other_containers() {
    let boxed: Box<[i32]> = vec![1, 2, 3].into_boxed_slice();
    let v = VecMin::<i32, 2>::try_from(boxed).unwrap();
    assert_eq!(*v, vec![1, 2, 3]);
    let short: Box<[i32]> = vec![1].into_boxed_slice();
    assert_eq!(VecMin::<i32, 2>::try_from(short), Err(vec![1]));

    let items = [4, 5, 6];
    let s = VecMin::<i32, 3>::try_from(&items[..]).unwrap();
    assert_eq!(*s, vec![4, 5, 6]);
    assert_eq!(VecMin::<i32, 4>::try_from(&items[..]), Err(vec![4, 5, 6]));

    let a = VecMin::<i32, 2>::try_from([7, 8]).unwrap();
    assert_eq!(*a, vec![7, 8]);
    assert_eq!(VecMin::<i32, 3>::try_from([7, 8]), Err(vec![7, 8]));

    let b: Box<[i32]> = a.into();
    assert_eq!(&*b, &[7, 8]);
}

#[test]
fn into_iter_yields_elements_in_order() {
    let v = vm2(vec![3, 4, 5]);
    let got: Vec<i32> = v.into_iter().collect();
    assert_eq!(got, vec![3, 4, 5]);
}

#[test]
fn remove_at_floor_refuses_any_index() {
    let mut v = vm2(vec![1, 2]);
    assert_eq!(v.remove(5), Err(ModifyError::<2>));
    assert_eq!(v.swap_remove(2), Err(ModifyError::<2>));
    assert_eq!(*v, vec![1, 2]);
}

#[test]
fn mutable_slice_views() {
    let mut v = vm2(vec![1, 2, 3]);
    v.as_mut_slice()[0] = 7;
    let m: &mut [i32] = v.as_mut();
    m[2] = 9;
    assert_eq!(*v, vec![7, 2, 9]);
}

#[test]
fn try_from_mut_slice() {
    let mut items = [4, 5, 6];
    let s = VecMin::<i32, 2>::try_from(&mut items[..]).unwrap();
    assert_eq!(*s, vec![4, 5, 6]);
    assert_eq!(VecMin::<i32, 4>::try_from(&mut items[..]), Err(vec![4, 5, 6]));
}
