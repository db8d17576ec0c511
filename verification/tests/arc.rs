use std::any::Any;
use std::hash::{Hash, Hasher};
use std::io::{Cursor, Read};
use std::sync::{Arc, Weak};

use unique_rc::MakeMut;
use unique_rc::UniqArc;

#[test]
fn arc_inner() {
    let arc = Arc::new("a".to_owned());
    let _rc2 = Arc::clone(&arc);
    let uarc = UniqArc::new(arc);

    assert_eq!(UniqArc::into_inner(uarc), "a");
}

#[test]
fn arc_clone() {
    let a = UniqArc::new(Arc::new("a".to_owned()));
    let b = a.clone();

    assert_eq!(UniqArc::into_inner(a), "a");
    assert_eq!(UniqArc::into_inner(b), "a");
}

#[test]
fn arc_dst_from() {
    let a: UniqArc<str> = UniqArc::from("a");
    assert_eq!(a.as_ref(), "a");
}

#[test]
fn arc_dst_clone() {
    let a: Arc<str> = Arc::from("a");
    let ua = UniqArc::new(a.clone());
    assert_eq!(a.as_ref(), "a");
    assert_eq!(ua.as_ref(), "a");
}

#[test]
fn arc_iter() {
    let mut iter = UniqArc::new_value(0..5);
    assert_eq!(iter.next(), Some(0));
    assert_eq!(iter.nth(1), Some(2));
}

#[test]
fn arc_slice_from_iter() {
    let arc = UniqArc::from_iter(0..4);
    assert_eq!(*arc, [0, 1, 2, 3]);
}

#[test]
fn arc_shared_new() {
    let arc = Arc::new(3);
    let arc1 = arc.clone();

    assert_eq!(Arc::strong_count(&arc), 2);
    assert_eq!(Arc::weak_count(&arc), 0);
    assert_eq!(Arc::strong_count(&arc1), 2);
    assert_eq!(Arc::weak_count(&arc1), 0);

    let mut unique_rc = UniqArc::new(arc);

    assert_eq!(Arc::strong_count(&arc1), 1);
    assert_eq!(Arc::weak_count(&arc1), 0);

    *unique_rc = 4;
    assert_eq!(*unique_rc, 4);
}

#[test]
fn arc_shared_weak_new() {
    let arc = Arc::new(3);
    let weak = Arc::downgrade(&arc);

    assert_eq!(Arc::strong_count(&arc), 1);
    assert_eq!(Arc::weak_count(&arc), 1);
    assert_eq!(Weak::strong_count(&weak), 1);
    assert_eq!(Weak::weak_count(&weak), 1);

    let mut unique_rc = UniqArc::new(arc);

    assert_eq!(Weak::strong_count(&weak), 0);
    assert_eq!(Weak::weak_count(&weak), 0);

    *unique_rc = 4;
    assert_eq!(*unique_rc, 4);
}

#[test]
fn arc_assign() {
    let mut arc = UniqArc::new_value([0, 1, 2]);
    (&mut *arc)[2] += 1;
    assert_eq!(*arc, [0, 1, 3]);
}

#[test]
fn arc_new_leaves_one_strong_and_no_weak() {
    let arc = Arc::new(5);
    let other = arc.clone();
    let weak = Arc::downgrade(&arc);
    let uarc = UniqArc::new(arc);
    assert_eq!(*uarc, 5);

    let back = UniqArc::into_rc(uarc);
    assert_eq!(Arc::strong_count(&back), 1);
    assert_eq!(Arc::weak_count(&back), 0);
    assert!(!Arc::ptr_eq(&back, &other));
    assert_eq!(Arc::strong_count(&other), 1);
    assert!(Arc::ptr_eq(&weak.upgrade().unwrap(), &other));
}

#[test]
fn arc_new_keeps_a_sole_allocation() {
    let arc = Arc::new(5);
    let at = Arc::as_ptr(&arc);
    let back = UniqArc::into_rc(UniqArc::new(arc));
    assert_eq!(Arc::as_ptr(&back), at);
    assert_eq!(*back, 5);
}

#[test]
fn arc_new_cuts_weak_observers_off() {
    let arc = Arc::new(2);
    let weak = Arc::downgrade(&arc);
    assert_eq!(weak.upgrade(), Some(Arc::new(2)));

    let uarc = UniqArc::new(arc);
    assert_eq!(*uarc, 2);
    assert_eq!(weak.upgrade(), None);
}

#[test]
fn arc_new_leaves_co_owners_their_value() {
    let arc = Arc::new(2);
    let other = Arc::clone(&arc);
    let weak = Arc::downgrade(&arc);

    let mut uarc = UniqArc::new(arc);
    *uarc = 9;
    assert_eq!(*uarc, 9);
    assert_eq!(*other, 2);
    assert_eq!(weak.upgrade(), Some(Arc::new(2)));
    assert_eq!(UniqArc::into_inner(uarc), 9);
    assert_eq!(*other, 2);
}

#[test]
fn arc_round_trip_keeps_value_and_allocation() {
    let mut uarc = UniqArc::new_value(vec![1, 2, 3]);
    uarc.push(4);
    let arc = UniqArc::into_rc(uarc);
    let at = Arc::as_ptr(&arc);
    let again = UniqArc::new(arc);
    assert_eq!(*again, vec![1, 2, 3, 4]);
    let arc = UniqArc::into_rc(again);
    assert_eq!(Arc::as_ptr(&arc), at);
}

#[test]
fn arc_try_new_refuses_a_shared_pointer() {
    let arc = Arc::new(7);
    let other = Arc::clone(&arc);
    let back = match UniqArc::try_new(arc) {
        Ok(_) => panic!("a shared pointer was taken"),
        Err(arc) => arc,
    };
    assert_eq!(Arc::strong_count(&back), 2);
    assert_eq!(Arc::weak_count(&back), 0);
    assert!(Arc::ptr_eq(&back, &other));
    assert_eq!(*back, 7);
}

#[test]
fn arc_try_new_refuses_a_weakly_observed_pointer() {
    let arc = Arc::new(7);
    let weak = Arc::downgrade(&arc);
    let back = match UniqArc::try_new(arc) {
        Ok(_) => panic!("an observed pointer was taken"),
        Err(arc) => arc,
    };
    assert_eq!(Arc::strong_count(&back), 1);
    assert_eq!(Arc::weak_count(&back), 1);
    assert_eq!(weak.upgrade(), Some(Arc::new(7)));
}

#[test]
fn arc_try_new_takes_a_sole_pointer() {
    let arc = Arc::new(7);
    let at = Arc::as_ptr(&arc);
    let mut uarc = match UniqArc::try_new(arc) {
        Ok(uarc) => uarc,
        Err(_) => panic!("a sole pointer was refused"),
    };
    assert_eq!(*uarc, 7);
    *uarc += 1;
    let back = UniqArc::into_rc(uarc);
    assert_eq!(Arc::as_ptr(&back), at);
    assert_eq!(*back, 8);
    assert_eq!(Arc::strong_count(&back), 1);
}

#[test]
fn arc_try_new_takes_a_type_erased_pointer() {
    let arc: Arc<i32> = Arc::new(3);
    let dyn_arc: Arc<dyn Any + Send + Sync + 'static> = arc;
    let uarc = UniqArc::try_new(dyn_arc).unwrap();
    assert!(uarc.is::<i32>());
    assert!(!uarc.is::<i8>());
    let back = UniqArc::into_rc(uarc);
    assert_eq!(*back.downcast::<i32>().unwrap(), 3);
}

#[test]
fn arc_weak_scenario() {
    let arc = Arc::new(3);
    let weak = Arc::downgrade(&arc);
    assert_eq!(Arc::strong_count(&arc), 1);
    assert_eq!(Arc::weak_count(&arc), 1);

    let mut uarc = UniqArc::new(arc);
    assert!(weak.upgrade().is_none());

    *uarc = 4;
    let arc = UniqArc::into_rc(uarc);
    let weak = Arc::downgrade(&arc);
    assert_eq!(weak.upgrade().map(|arc| *arc), Some(4));
}

#[test]
fn arc_new_value_and_into_inner() {
    let uarc = UniqArc::new_value(String::from("held"));
    assert_eq!(*uarc, "held");
    assert_eq!(UniqArc::into_inner(uarc), "held");
}

#[test]
fn arc_into_inner_with_weak_observer_left_behind() {
    let arc = Arc::new(1);
    let weak = Arc::downgrade(&arc);
    let uarc = UniqArc::new(arc);
    assert_eq!(UniqArc::into_inner(uarc), 1);
    assert!(weak.upgrade().is_none());
}

#[test]
fn arc_deref_mut_writes_in_place() {
    let mut uarc = UniqArc::new_value([1u8, 2, 3]);
    let at = uarc.as_ptr();
    uarc[0] = 9;
    uarc.as_mut()[1] = 8;
    assert_eq!(*uarc, [9, 8, 3]);
    assert_eq!(uarc.as_ref(), &[9, 8, 3]);
    assert_eq!(uarc.as_ptr(), at);
}

#[test]
fn arc_borrow_and_borrow_mut() {
    arc_use_borrow(UniqArc::new_value(5));
}

fn arc_use_borrow<B: std::borrow::BorrowMut<i32>>(mut held: B) {
    assert_eq!(*held.borrow(), 5);
    *held.borrow_mut() = 6;
    assert_eq!(*held.borrow(), 6);
}

#[test]
fn arc_clone_is_independent() {
    let mut a = UniqArc::new_value(vec![1, 2]);
    let b = a.clone();
    a.push(3);
    assert_eq!(*a, vec![1, 2, 3]);
    assert_eq!(*b, vec![1, 2]);
    let a = UniqArc::into_rc(a);
    let b = UniqArc::into_rc(b);
    assert!(!Arc::ptr_eq(&a, &b));
    assert_eq!(Arc::strong_count(&a), 1);
    assert_eq!(Arc::strong_count(&b), 1);
}

#[test]
fn arc_clone_of_slice_and_str() {
    let a: UniqArc<[i32]> = UniqArc::from_iter(vec![1, 2].into_iter());
    let b = a.clone();
    assert_eq!(*a, [1, 2]);
    assert_eq!(*b, [1, 2]);
    let s: UniqArc<str> = UniqArc::from("xy");
    let t = s.clone();
    assert_eq!(&*s, "xy");
    assert_eq!(&*t, "xy");
}

#[test]
fn arc_default() {
    let d: UniqArc<u32> = UniqArc::default();
    assert_eq!(*d, 0);
    let s: UniqArc<String> = Default::default();
    assert_eq!(*s, "");
}

#[test]
fn arc_array_to_slice_and_back() {
    let array = UniqArc::new_value([0, 1, 2, 3]);
    let at = array.as_ptr();
    let slice: UniqArc<[i32]> = UniqArc::from(array);
    assert_eq!(*slice, [0, 1, 2, 3]);
    assert_eq!(slice.len(), 4);
    assert_eq!(slice.as_ptr(), at);

    let back: UniqArc<[i32; 4]> = UniqArc::try_from(slice).unwrap();
    assert_eq!(*back, [0, 1, 2, 3]);
    assert_eq!(back.as_ptr(), at);
}

#[test]
fn arc_slice_to_array_of_wrong_length() {
    let slice: UniqArc<[i32]> = UniqArc::from(UniqArc::new_value([0, 1, 2, 3]));
    let at = slice.as_ptr();
    let short: Result<UniqArc<[i32; 3]>, Arc<[i32]>> = UniqArc::try_from(slice);
    let arc = match short {
        Ok(_) => panic!("four items were taken for three"),
        Err(arc) => arc,
    };
    assert_eq!(*arc, [0, 1, 2, 3]);
    assert_eq!(arc.as_ptr(), at);
    assert_eq!(Arc::strong_count(&arc), 1);

    let long: Result<UniqArc<[i32; 5]>, Arc<[i32]>> = UniqArc::try_from(UniqArc::new(arc));
    assert!(long.is_err());
}

#[test]
fn arc_empty_slice() {
    let empty: UniqArc<[u8]> = UniqArc::from_iter(std::iter::empty());
    assert_eq!(empty.len(), 0);
    let none: UniqArc<[u8; 0]> = UniqArc::try_from(empty).unwrap();
    assert_eq!(*none, []);
}

#[test]
fn arc_from_iter_keeps_order() {
    let held = UniqArc::from_iter(vec!["c", "a", "b"].into_iter());
    assert_eq!(*held, ["c", "a", "b"]);
    let arc = UniqArc::into_rc(held);
    assert_eq!(Arc::strong_count(&arc), 1);
    assert_eq!(Arc::weak_count(&arc), 0);
}

#[test]
fn arc_from_converts_through_rc() {
    let boxed: UniqArc<i32> = UniqArc::from(Box::new(5));
    assert_eq!(*boxed, 5);
    let value: UniqArc<i32> = UniqArc::from(6);
    assert_eq!(*value, 6);
    let text: UniqArc<str> = UniqArc::from(String::from("abc"));
    assert_eq!(&*text, "abc");
    let items: UniqArc<[u8]> = UniqArc::from(vec![1u8, 2]);
    assert_eq!(*items, [1, 2]);
    let shared = Arc::new(7);
    let other = Arc::clone(&shared);
    let forced: UniqArc<i32> = UniqArc::from(shared);
    assert_eq!(*forced, 7);
    assert_eq!(Arc::strong_count(&other), 1);
}

#[test]
fn arc_into_shared() {
    let held = UniqArc::new_value(3);
    let arc: Arc<i32> = held.into();
    assert_eq!(*arc, 3);
    assert_eq!(Arc::strong_count(&arc), 1);
}

#[test]
fn arc_str_into_bytes() {
    let text: UniqArc<str> = UniqArc::from("h\u{e9}");
    let bytes: Arc<[u8]> = Arc::from(text);
    assert_eq!(*bytes, [0x68, 0xc3, 0xa9]);
}

#[test]
fn arc_make_mut_on_pointers() {
    let mut arc = Arc::new(1);
    let other = Arc::clone(&arc);
    *<Arc<i32> as MakeMut>::make_mut(&mut arc) += 1;
    assert_eq!(*arc, 2);
    assert_eq!(*other, 1);

    let mut slice: Arc<[i32]> = Arc::from(vec![1, 2]);
    let other = Arc::clone(&slice);
    <Arc<[i32]> as MakeMut>::make_mut(&mut slice)[0] = 5;
    assert_eq!(*slice, [5, 2]);
    assert_eq!(*other, [1, 2]);

    let mut text: Arc<str> = Arc::from("ab");
    let other = Arc::clone(&text);
    <Arc<str> as MakeMut>::make_mut(&mut text).make_ascii_uppercase();
    assert_eq!(&*text, "AB");
    assert_eq!(&*other, "ab");
}

#[test]
fn arc_to_unique_on_pointers() {
    let arc = Arc::new(1);
    let other = Arc::clone(&arc);
    let weak = Arc::downgrade(&arc);
    let sole = MakeMut::to_unique(arc);
    assert_eq!(*sole, 1);
    assert_eq!(Arc::strong_count(&sole), 1);
    assert_eq!(Arc::weak_count(&sole), 0);
    assert_eq!(Arc::strong_count(&other), 1);
    assert!(Arc::ptr_eq(&weak.upgrade().unwrap(), &other));

    let text: Arc<str> = Arc::from("ab");
    let other = Arc::clone(&text);
    let sole = MakeMut::to_unique(text);
    assert_eq!(&*sole, "ab");
    assert_eq!(Arc::strong_count(&sole), 1);
    assert_eq!(Arc::strong_count(&other), 1);
}

#[test]
fn arc_make_mut_on_wrapper() {
    let mut held = UniqArc::new_value(1);
    let at = format!("{:p}", &*held);
    *<UniqArc<i32> as MakeMut>::make_mut(&mut held) = 2;
    assert_eq!(*held, 2);
    let held = MakeMut::to_unique(held);
    assert_eq!(*held, 2);
    assert_eq!(format!("{:p}", &*held), at);

    let mut slice: UniqArc<[i32]> = UniqArc::from_iter(0..2);
    <UniqArc<[i32]> as MakeMut>::make_mut(&mut slice)[1] = 7;
    assert_eq!(*slice, [0, 7]);

    let mut text: UniqArc<str> = UniqArc::from("ab");
    <UniqArc<str> as MakeMut>::make_mut(&mut text).make_ascii_uppercase();
    assert_eq!(&*text, "AB");
}

#[test]
fn arc_compares_by_pointee() {
    let a = UniqArc::new_value(1);
    let b = UniqArc::new_value(2);
    let c = UniqArc::new_value(1);
    assert!(a == c);
    assert!(a != b);
    assert!(a < b);
    assert!(b > c);
    assert!(a <= c);
    assert_eq!(a.partial_cmp(&b), Some(std::cmp::Ordering::Less));
    assert_eq!(a.cmp(&c), std::cmp::Ordering::Equal);
    assert_eq!(b.cmp(&a), std::cmp::Ordering::Greater);
    let nan = UniqArc::new_value(f64::NAN);
    assert_eq!(nan.partial_cmp(&nan), None);
    assert!(nan != nan);
}

#[test]
fn arc_hashes_as_pointee() {
    let mut held = std::collections::hash_map::DefaultHasher::new();
    UniqArc::new_value(17u32).hash(&mut held);
    let mut bare = std::collections::hash_map::DefaultHasher::new();
    17u32.hash(&mut bare);
    assert_eq!(held.finish(), bare.finish());
}

#[test]
fn arc_read() {
    let mut from = UniqArc::new_value(Cursor::new(vec![1u8, 2, 3]));
    let mut buf = [0; 5];
    assert_eq!(from.read(&mut buf).unwrap(), 3);
    assert_eq!(buf, [1, 2, 3, 0, 0]);
}
