//! What holds of the wrappers whatever they hold, stated over the contracts
//! of their functions.
use crate::arc::UniqArc;
use crate::make_mut::MakeMut;
use crate::rc::UniqRc;
use std::rc::Rc;
use std::sync::Arc;
use vstd::prelude::*;

verus! {

/// A value put in a new allocation comes out of it as it went in.
pub proof fn rc_value_comes_back<T>(value: T, held: UniqRc<T>, out: T)
    requires
        call_ensures(UniqRc::<T>::new_value, (value,), held),
        call_ensures(UniqRc::<T>::into_inner, (held,), out),
    ensures
        out == value,
{
}

/// Forcing a pointer into a wrapper and taking the value out yields the
/// pointee or a clone of it, however many others shared the pointer.
pub proof fn rc_forced_value<T: Clone>(rc: Rc<T>, held: UniqRc<T>, out: T)
    requires
        call_ensures(UniqRc::<T>::new, (rc,), held),
        call_ensures(UniqRc::<T>::into_inner, (held,), out),
    ensures
        cloned::<T>(*rc, out),
{
}

/// Giving the pointer back and forcing it into a wrapper again yields a
/// wrapper over the same pointee or a copy of it.
pub proof fn rc_round_trip<T: ?Sized>(held: UniqRc<T>, rc: Rc<T>, again: UniqRc<T>)
    where Rc<T>: MakeMut<T = T>
    requires
        call_ensures(UniqRc::<T>::into_rc, (held,), rc),
        call_ensures(UniqRc::<T>::new, (rc,), again),
    ensures
        <Rc<T> as MakeMut>::copy_of(
            MakeMut::pointee(&held.shared()),
            MakeMut::pointee(&again.shared()),
        ),
{
}

/// Giving the pointer back and offering it again yields, if it is taken, a
/// wrapper over the same pointee, and if not, the pointer itself.
pub proof fn rc_offered_again<T: ?Sized>(
    held: UniqRc<T>,
    rc: Rc<T>,
    again: Result<UniqRc<T>, Rc<T>>,
)
    requires
        call_ensures(UniqRc::<T>::into_rc, (held,), rc),
        call_ensures(UniqRc::<T>::try_new, (rc,), again),
    ensures
        match again {
            Ok(u) => u.pointee() == held.pointee(),
            Err(e) => &*e == held.pointee(),
        },
{
}

/// An array seen as a slice and then as an array of `M` items again: with
/// `M` the length of the array it comes back with its items, and with
/// another `M` the slice comes back with them.
pub proof fn rc_slice_and_back<T, const N: usize, const M: usize>(
    array: UniqRc<[T; N]>,
    slice: UniqRc<[T]>,
    back: Result<UniqRc<[T; M]>, Rc<[T]>>,
)
    requires
        call_ensures(<UniqRc<[T]> as From<UniqRc<[T; N]>>>::from, (array,), slice),
        call_ensures(<UniqRc<[T; M]> as TryFrom<UniqRc<[T]>>>::try_from, (slice,), back),
    ensures
        match back {
            Ok(a) => M == N && a@@ == array@@,
            Err(e) => M != N && e@ == array@@,
        },
{
}

/// A value put in a new allocation comes out of it as it went in.
pub proof fn arc_value_comes_back<T>(value: T, held: UniqArc<T>, out: T)
    requires
        call_ensures(UniqArc::<T>::new_value, (value,), held),
        call_ensures(UniqArc::<T>::into_inner, (held,), out),
    ensures
        out == value,
{
}

/// Forcing a pointer into a wrapper and taking the value out yields the
/// pointee or a clone of it, however many others shared the pointer.
pub proof fn arc_forced_value<T: Clone>(arc: Arc<T>, held: UniqArc<T>, out: T)
    requires
        call_ensures(UniqArc::<T>::new, (arc,), held),
        call_ensures(UniqArc::<T>::into_inner, (held,), out),
    ensures
        cloned::<T>(*arc, out),
{
}

/// Giving the pointer back and forcing it into a wrapper again yields a
/// wrapper over the same pointee or a copy of it.
pub proof fn arc_round_trip<T: ?Sized>(held: UniqArc<T>, arc: Arc<T>, again: UniqArc<T>)
    where Arc<T>: MakeMut<T = T>
    requires
        call_ensures(UniqArc::<T>::into_rc, (held,), arc),
        call_ensures(UniqArc::<T>::new, (arc,), again),
    ensures
        <Arc<T> as MakeMut>::copy_of(
            MakeMut::pointee(&held.shared()),
            MakeMut::pointee(&again.shared()),
        ),
{
}

/// Giving the pointer back and offering it again yields, if it is taken, a
/// wrapper over the same pointee, and if not, the pointer itself.
pub proof fn arc_offered_again<T: ?Sized>(
    held: UniqArc<T>,
    arc: Arc<T>,
    again: Result<UniqArc<T>, Arc<T>>,
)
    requires
        call_ensures(UniqArc::<T>::into_rc, (held,), arc),
        call_ensures(UniqArc::<T>::try_new, (arc,), again),
    ensures
        match again {
            Ok(u) => u.pointee() == held.pointee(),
            Err(e) => &*e == held.pointee(),
        },
{
}

/// An array seen as a slice and then as an array of `M` items again: with
/// `M` the length of the array it comes back with its items, and with
/// another `M` the slice comes back with them.
pub proof fn arc_slice_and_back<T, const N: usize, const M: usize>(
    array: UniqArc<[T; N]>,
    slice: UniqArc<[T]>,
    back: Result<UniqArc<[T; M]>, Arc<[T]>>,
)
    requires
        call_ensures(<UniqArc<[T]> as From<UniqArc<[T; N]>>>::from, (array,), slice),
        call_ensures(<UniqArc<[T; M]> as TryFrom<UniqArc<[T]>>>::try_from, (slice,), back),
    ensures
        match back {
            Ok(a) => M == N && a@@ == array@@,
            Err(e) => M != N && e@ == array@@,
        },
{
}

} // verus!
