//! Comparisons, which go by the pointees.
use crate::arc::UniqArc;
use crate::rc::UniqRc;
use std::cmp::Ordering;
use vstd::prelude::*;
use vstd::std_specs::cmp::PartialEqSpec;
use vstd::std_specs::cmp::PartialEqSpecImpl;
use vstd::std_specs::cmp::PartialOrdSpec;
use vstd::std_specs::cmp::PartialOrdSpecImpl;

verus! {

impl<T: ?Sized + PartialEq> PartialEq for UniqRc<T> {
    fn eq(&self, other: &Self) -> (r: bool) {
        (**self).eq(&**other)
    }
}

impl<T: ?Sized + PartialEq> PartialEqSpecImpl for UniqRc<T> {
    open spec fn obeys_eq_spec() -> bool {
        T::obeys_eq_spec()
    }

    open spec fn eq_spec(&self, other: &Self) -> bool {
        self.pointee().eq_spec(other.pointee())
    }
}

impl<T: ?Sized + Eq> Eq for UniqRc<T> {
}

impl<T: ?Sized + PartialOrd> PartialOrd for UniqRc<T> {
    fn partial_cmp(&self, other: &Self) -> (r: Option<Ordering>) {
        (**self).partial_cmp(&**other)
    }
}

impl<T: ?Sized + PartialOrd> PartialOrdSpecImpl for UniqRc<T> {
    open spec fn obeys_partial_cmp_spec() -> bool {
        T::obeys_partial_cmp_spec()
    }

    open spec fn partial_cmp_spec(&self, other: &Self) -> Option<Ordering> {
        self.pointee().partial_cmp_spec(other.pointee())
    }
}

impl<T: ?Sized + PartialEq> PartialEq for UniqArc<T> {
    fn eq(&self, other: &Self) -> (r: bool) {
        (**self).eq(&**other)
    }
}

impl<T: ?Sized + PartialEq> PartialEqSpecImpl for UniqArc<T> {
    open spec fn obeys_eq_spec() -> bool {
        T::obeys_eq_spec()
    }

    open spec fn eq_spec(&self, other: &Self) -> bool {
        self.pointee().eq_spec(other.pointee())
    }
}

impl<T: ?Sized + Eq> Eq for UniqArc<T> {
}

impl<T: ?Sized + PartialOrd> PartialOrd for UniqArc<T> {
    fn partial_cmp(&self, other: &Self) -> (r: Option<Ordering>) {
        (**self).partial_cmp(&**other)
    }
}

impl<T: ?Sized + PartialOrd> PartialOrdSpecImpl for UniqArc<T> {
    open spec fn obeys_partial_cmp_spec() -> bool {
        T::obeys_partial_cmp_spec()
    }

    open spec fn partial_cmp_spec(&self, other: &Self) -> Option<Ordering> {
        self.pointee().partial_cmp_spec(other.pointee())
    }
}

} // verus!
