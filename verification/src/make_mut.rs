//! Pointers that can be made the only owner of their pointee.
use std::rc::Rc;
use std::sync::Arc;
use vstd::prelude::*;

verus! {

/// A pointer that can be made the only owner of what it points to, by
/// copying the pointee into an allocation of its own when it is shared.
///
/// An implementation must leave the pointer without any other strong or
/// weak pointer to its allocation. The reference counts are no part of a
/// pointer's value, so the contracts below speak of the pointee alone.
pub trait MakeMut: Sized {
    type T: ?Sized;

    /// What the pointer points to.
    spec fn pointee(&self) -> &Self::T;

    /// Whether `to` can be what the pointer holds after it was made the only
    /// owner of `from`: `from` itself, or what copying it gives.
    spec fn copy_of(from: &Self::T, to: &Self::T) -> bool;

    /// Makes `this` the only owner and lends its pointee, which is the old
    /// pointee or a copy of it.
    fn make_mut(this: &mut Self) -> (r: &mut Self::T)
        ensures
            Self::copy_of(old(this).pointee(), &*r),
            final(this).pointee() == &*final(r),
    ;

    /// Makes `this` the only owner of its pointee, which is the old pointee
    /// or a copy of it.
    fn to_unique(this: Self) -> (r: Self)
        ensures
            Self::copy_of(this.pointee(), r.pointee()),
    {
        let mut this = this;
        let _ = Self::make_mut(&mut this);
        this
    }
}

/// Whether each item of `to` can be what cloning the item of `from` at the
/// same place gives.
pub open spec fn cloned_items<T: Clone>(from: Seq<T>, to: Seq<T>) -> bool {
    &&& from.len() == to.len()
    &&& forall|i: int| 0 <= i < from.len() ==> cloned::<T>(#[trigger] from[i], to[i])
}

/// `Rc::make_mut` on a sized pointee: clones the pointee into a new
/// allocation if another `Rc` shares it, moves it there if only `Weak`
/// pointers do, and else leaves it in place. The reference lent is to the
/// pointee that `rc` has afterwards.
#[verifier::external_body]
fn rc_make_mut<T: Clone>(rc: &mut Rc<T>) -> (r: &mut T)
    ensures
        cloned::<T>(**old(rc), *r),
        **final(rc) == *final(r),
{
    Rc::make_mut(rc)
}

/// `Rc::make_mut` on a slice: as on a sized pointee, the copy made item by
/// item with `T::clone`.
#[verifier::external_body]
fn rc_make_mut_slice<T: Clone>(rc: &mut Rc<[T]>) -> (r: &mut [T])
    ensures
        cloned_items::<T>(old(rc)@, r@),
        &**final(rc) == &*final(r),
{
    Rc::make_mut(rc)
}

/// `Rc::make_mut` on a string slice: as on a sized pointee, the copy holding
/// the same characters.
#[verifier::external_body]
fn rc_make_mut_str(rc: &mut Rc<str>) -> (r: &mut str)
    ensures
        r@ == (&**old(rc))@,
        &**final(rc) == &*final(r),
{
    Rc::make_mut(rc)
}

/// `Arc::make_mut` on a sized pointee: clones the pointee into a new
/// allocation if another `Arc` shares it, moves it there if only `Weak`
/// pointers do, and else leaves it in place. The reference lent is to the
/// pointee that `arc` has afterwards.
#[verifier::external_body]
fn arc_make_mut<T: Clone>(arc: &mut Arc<T>) -> (r: &mut T)
    ensures
        cloned::<T>(**old(arc), *r),
        **final(arc) == *final(r),
{
    Arc::make_mut(arc)
}

/// `Arc::make_mut` on a slice: as on a sized pointee, the copy made item by
/// item with `T::clone`.
#[verifier::external_body]
fn arc_make_mut_slice<T: Clone>(arc: &mut Arc<[T]>) -> (r: &mut [T])
    ensures
        cloned_items::<T>(old(arc)@, r@),
        &**final(arc) == &*final(r),
{
    Arc::make_mut(arc)
}

/// `Arc::make_mut` on a string slice: as on a sized pointee, the copy
/// holding the same characters.
#[verifier::external_body]
fn arc_make_mut_str(arc: &mut Arc<str>) -> (r: &mut str)
    ensures
        r@ == (&**old(arc))@,
        &**final(arc) == &*final(r),
{
    Arc::make_mut(arc)
}

impl<T: Clone> MakeMut for Rc<T> {
    type T = T;

    open spec fn pointee(&self) -> &T {
        &**self
    }

    open spec fn copy_of(from: &T, to: &T) -> bool {
        cloned::<T>(*from, *to)
    }

    fn make_mut(this: &mut Self) -> (r: &mut T) {
        rc_make_mut(this)
    }
}

impl<T: Clone> MakeMut for Rc<[T]> {
    type T = [T];

    open spec fn pointee(&self) -> &[T] {
        &**self
    }

    open spec fn copy_of(from: &[T], to: &[T]) -> bool {
        cloned_items::<T>(from@, to@)
    }

    fn make_mut(this: &mut Self) -> (r: &mut [T]) {
        rc_make_mut_slice(this)
    }
}

impl MakeMut for Rc<str> {
    type T = str;

    open spec fn pointee(&self) -> &str {
        &**self
    }

    open spec fn copy_of(from: &str, to: &str) -> bool {
        from@ == to@
    }

    fn make_mut(this: &mut Self) -> (r: &mut str) {
        rc_make_mut_str(this)
    }
}

impl<T: Clone> MakeMut for Arc<T> {
    type T = T;

    open spec fn pointee(&self) -> &T {
        &**self
    }

    open spec fn copy_of(from: &T, to: &T) -> bool {
        cloned::<T>(*from, *to)
    }

    fn make_mut(this: &mut Self) -> (r: &mut T) {
        arc_make_mut(this)
    }
}

impl<T: Clone> MakeMut for Arc<[T]> {
    type T = [T];

    open spec fn pointee(&self) -> &[T] {
        &**self
    }

    open spec fn copy_of(from: &[T], to: &[T]) -> bool {
        cloned_items::<T>(from@, to@)
    }

    fn make_mut(this: &mut Self) -> (r: &mut [T]) {
        arc_make_mut_slice(this)
    }
}

impl MakeMut for Arc<str> {
    type T = str;

    open spec fn pointee(&self) -> &str {
        &**self
    }

    open spec fn copy_of(from: &str, to: &str) -> bool {
        from@ == to@
    }

    fn make_mut(this: &mut Self) -> (r: &mut str) {
        arc_make_mut_str(this)
    }
}

} // verus!
