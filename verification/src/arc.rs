//! An `Arc` held by its only owner.
use crate::make_mut::cloned_items;
use crate::make_mut::MakeMut;
use std::sync::Arc;
use vstd::prelude::*;
use vstd::std_specs::iter::IteratorSpec;
use vstd::string::StringSliceAdditionalSpecFns;

verus! {

/// An `Arc` that no other `Arc` and no `Weak` shares.
///
/// Every constructor lets a pointer in only after `Arc` itself has shown it
/// to be the allocation's one pointer, has made it so, or has just made the
/// allocation. The field is private and no method lends or clones the `Arc`
/// inside, so it stays the one pointer for as long as the value lives. That
/// is what lets [`deref_mut`](std::ops::DerefMut::deref_mut) and
/// [`into_inner`](UniqArc::into_inner) reach the pointee without a fallible
/// step.
///
/// The reference counts belong to the allocation, not to the pointer's
/// value, so contracts speak of the pointee: [`pointee`](UniqArc::pointee),
/// or `@` where the pointee is sized, a slice or a string slice.
#[derive(Hash, Ord)]
pub struct UniqArc<T: ?Sized> {
    arc: Arc<T>,
}

/// `Arc::get_mut`: lends the pointee if `arc` is its allocation's only
/// pointer, strong or weak, and `None` if not. It changes nothing itself;
/// through the reference lent the caller decides what `arc` points to
/// afterwards.
#[verifier::external_body]
fn arc_get_mut<T: ?Sized>(arc: &mut Arc<T>) -> (r: Option<&mut T>)
    ensures
        match r {
            Some(p) => &*p == &**old(arc) && &**final(arc) == &*final(p),
            None => *final(arc) == *old(arc),
        },
{
    Arc::get_mut(arc)
}

/// `Arc::get_mut` on the pointer of a [`UniqArc`], with the reference taken
/// out of the `Option`. `Arc::get_mut` answers `None` only for a pointer that
/// shares its allocation, which the pointer of a `UniqArc` never does; the
/// call halts if it ever did.
#[verifier::external_body]
fn sole_mut<T: ?Sized>(this: &mut UniqArc<T>) -> (r: &mut T)
    ensures
        &*r == old(this).pointee(),
        final(this).pointee() == &*final(r),
{
    Arc::get_mut(&mut this.arc).expect("UniqArc: the pointer is shared")
}

/// `Arc::try_unwrap` on the pointer of a [`UniqArc`], with the value taken out
/// of the `Result`. `Arc::try_unwrap` answers `Err` only for a pointer that
/// another `Arc` shares, which the pointer of a `UniqArc` never does; the call
/// halts if it ever did.
#[verifier::external_body]
fn sole_value<T>(this: UniqArc<T>) -> (r: T)
    ensures
        r == *this.pointee(),
{
    Arc::try_unwrap(this.arc).ok().expect("UniqArc: the pointer is shared")
}

/// The unsizing of `Arc<[T; N]>` to `Arc<[T]>`: the same allocation, its
/// length carried in the pointer.
#[verifier::external_body]
fn arc_unsize<T, const N: usize>(arc: Arc<[T; N]>) -> (r: Arc<[T]>)
    ensures
        r@ == arc@,
{
    let slice: Arc<[T]> = arc;
    slice
}

/// `Arc::<[T; N]>::try_from`: the same allocation as an array if the slice
/// has `N` items, and else the slice handed back.
#[verifier::external_body]
fn arc_sized<T, const N: usize>(arc: Arc<[T]>) -> (r: Result<Arc<[T; N]>, Arc<[T]>>)
    ensures
        match r {
            Ok(a) => arc@.len() == N && a@ == arc@,
            Err(e) => arc@.len() != N && e == arc,
        },
{
    Arc::<[T; N]>::try_from(arc)
}

/// `Arc::<[T]>::from_iter`: a new allocation that holds what `iter` yields, in
/// the order in which it yields it.
#[verifier::external_body]
fn arc_from_iter<T, I: Iterator<Item = T>>(iter: I) -> (r: Arc<[T]>)
    ensures
        iter.obeys_prophetic_iter_laws() ==> r@ == iter.remaining(),
{
    Arc::from_iter(iter)
}

/// `Arc::<[u8]>::from` on an `Arc<str>`: the same allocation, seen as the
/// bytes of the string.
#[verifier::external_body]
fn arc_str_bytes(arc: Arc<str>) -> (r: Arc<[u8]>)
    ensures
        r@ == (&*arc).spec_bytes(),
{
    Arc::from(arc)
}

impl<T: ?Sized> UniqArc<T> {
    /// The pointer inside, as [`into_rc`](UniqArc::into_rc) gives it.
    pub closed spec fn shared(self) -> Arc<T> {
        self.arc
    }

    /// What the wrapper owns.
    pub open spec fn pointee(&self) -> &T {
        &*self.shared()
    }

    /// Takes `arc` if `sole` says that it is its allocation's only pointer,
    /// and hands it back if not.
    fn take_if(arc: Arc<T>, sole: bool) -> (r: Result<Self, Arc<T>>)
        ensures
            sole ==> r is Ok && r->Ok_0.shared() == arc,
            !sole ==> r is Err && r->Err_0 == arc,
    {
        if sole {
            Ok(UniqArc { arc })
        } else {
            Err(arc)
        }
    }

    /// Takes `arc` if it is its allocation's only pointer, strong or weak.
    /// If not, `arc` comes back as it was, in `Err`.
    ///
    /// Which of the two happens is for the allocation's reference counts to
    /// say, of which the value of `arc` tells nothing.
    pub fn try_new(arc: Arc<T>) -> (r: Result<Self, Arc<T>>)
        ensures
            match r {
                Ok(u) => u.shared() == arc,
                Err(e) => e == arc,
            },
    {
        let mut arc = arc;
        let sole = arc_get_mut(&mut arc).is_some();
        Self::take_if(arc, sole)
    }

    /// Gives the pointer back, free to be cloned and downgraded again. The
    /// pointee stays where it is.
    pub fn into_rc(this: Self) -> (r: Arc<T>)
        ensures
            r == this.shared(),
            &*r == this.pointee(),
    {
        this.arc
    }
}

impl<T: ?Sized> UniqArc<T> where Arc<T>: MakeMut<T = T> {
    /// Takes `arc`, first making it its allocation's only pointer: if another
    /// `Arc` or a `Weak` shares the pointee, the wrapper gets a copy of it in
    /// an allocation of its own and the others keep the old one.
    pub fn new(arc: Arc<T>) -> (r: Self)
        ensures
            <Arc<T> as MakeMut>::copy_of(MakeMut::pointee(&arc), MakeMut::pointee(&r.shared())),
    {
        UniqArc { arc: MakeMut::to_unique(arc) }
    }
}

impl<T> UniqArc<T> {
    /// Puts `value` in a new allocation, which has no other pointer.
    pub fn new_value(value: T) -> (r: Self)
        ensures
            r@ == value,
    {
        UniqArc { arc: Arc::new(value) }
    }

    /// Moves the pointee out and frees the allocation.
    pub fn into_inner(this: Self) -> (r: T)
        ensures
            r == this@,
    {
        sole_value(this)
    }
}

impl<T> View for UniqArc<T> {
    type V = T;

    open spec fn view(&self) -> T {
        *self.pointee()
    }
}

impl<T> View for UniqArc<[T]> {
    type V = Seq<T>;

    open spec fn view(&self) -> Seq<T> {
        self.pointee()@
    }
}

impl View for UniqArc<str> {
    type V = Seq<char>;

    open spec fn view(&self) -> Seq<char> {
        self.pointee()@
    }
}

impl<T: ?Sized> std::ops::Deref for UniqArc<T> {
    type Target = T;

    fn deref(&self) -> (r: &T)
        ensures
            r == self.pointee(),
    {
        &*self.arc
    }
}

impl<T: ?Sized> std::ops::DerefMut for UniqArc<T> {
    /// Lends the pointee for writing. What the wrapper owns afterwards is
    /// what the caller leaves behind the reference.
    fn deref_mut(&mut self) -> (r: &mut T)
        ensures
            &*r == old(self).pointee(),
            final(self).pointee() == &*final(r),
    {
        sole_mut(self)
    }
}

impl<T: ?Sized> AsRef<T> for UniqArc<T> {
    fn as_ref(&self) -> (r: &T)
        ensures
            r == self.pointee(),
    {
        &*self.arc
    }
}

impl<T: ?Sized> AsMut<T> for UniqArc<T> {
    fn as_mut(&mut self) -> (r: &mut T)
        ensures
            &*r == old(self).pointee(),
            final(self).pointee() == &*final(r),
    {
        sole_mut(self)
    }
}

impl<T: ?Sized> std::borrow::Borrow<T> for UniqArc<T> {
    fn borrow(&self) -> &T
        returns
            self.pointee(),
    {
        &*self.arc
    }
}

impl<T: ?Sized> std::borrow::BorrowMut<T> for UniqArc<T> {
    /// Lends the pointee for writing, as
    /// [`deref_mut`](std::ops::DerefMut::deref_mut) does.
    fn borrow_mut(&mut self) -> (r: &mut T)
        ensures
            ({
                let lent: &mut T = r;
                &&& &*lent == old(self).pointee()
                &&& final(self).pointee() == &*final(lent)
            }),
    {
        sole_mut(self)
    }
}

impl<T: ?Sized> Clone for UniqArc<T> where Arc<T>: MakeMut<T = T> {
    /// A wrapper of its own over a copy of the pointee.
    fn clone(&self) -> (r: Self)
        ensures
            <Arc<T> as MakeMut>::copy_of(
                MakeMut::pointee(&self.shared()),
                MakeMut::pointee(&r.shared()),
            ),
    {
        Self::new(Arc::clone(&self.arc))
    }
}

impl<T: Default> Default for UniqArc<T> {
    fn default() -> (r: Self)
        ensures
            T::default.ensures((), r@),
    {
        UniqArc { arc: Arc::new(T::default()) }
    }
}

impl<T: Clone> MakeMut for UniqArc<T> {
    type T = T;

    open spec fn pointee(&self) -> &T {
        UniqArc::pointee(self)
    }

    open spec fn copy_of(from: &T, to: &T) -> bool {
        cloned::<T>(*from, *to)
    }

    /// Lends the pointee, which is never copied: the wrapper is its only
    /// owner already.
    fn make_mut(this: &mut Self) -> (r: &mut T)
        ensures
            &*r == UniqArc::pointee(old(this)),
    {
        sole_mut(this)
    }
}

impl<T: Clone> MakeMut for UniqArc<[T]> {
    type T = [T];

    open spec fn pointee(&self) -> &[T] {
        UniqArc::pointee(self)
    }

    open spec fn copy_of(from: &[T], to: &[T]) -> bool {
        cloned_items::<T>(from@, to@)
    }

    /// Lends the pointee, which is never copied: the wrapper is its only
    /// owner already.
    fn make_mut(this: &mut Self) -> (r: &mut [T])
        ensures
            &*r == UniqArc::pointee(old(this)),
    {
        sole_mut(this)
    }
}

impl MakeMut for UniqArc<str> {
    type T = str;

    open spec fn pointee(&self) -> &str {
        UniqArc::pointee(self)
    }

    open spec fn copy_of(from: &str, to: &str) -> bool {
        from@ == to@
    }

    /// Lends the pointee, which is never copied: the wrapper is its only
    /// owner already.
    fn make_mut(this: &mut Self) -> (r: &mut str)
        ensures
            &*r == UniqArc::pointee(old(this)),
    {
        sole_mut(this)
    }
}

impl<T> UniqArc<[T]> {
    /// Collects what `iter` yields into a new allocation, which has no
    /// other pointer.
    pub fn from_iter<I: Iterator<Item = T>>(iter: I) -> (r: Self)
        ensures
            iter.obeys_prophetic_iter_laws() ==> r@ == iter.remaining(),
    {
        UniqArc { arc: arc_from_iter(iter) }
    }
}

impl<T: ?Sized, U> From<U> for UniqArc<T> where Arc<T>: MakeMut<T = T> + From<U> {
    /// Builds the `Arc` that `value` converts to and takes it as
    /// [`new`](UniqArc::new) does.
    fn from(value: U) -> (r: Self)
        ensures
            exists|arc: Arc<T>|
                {
                    &&& #[trigger] call_ensures(<Arc<T> as From<U>>::from, (value,), arc)
                    &&& <Arc<T> as MakeMut>::copy_of(MakeMut::pointee(&arc), MakeMut::pointee(&r.shared()))
                },
    {
        let arc: Arc<T> = Arc::from(value);
        Self::new(arc)
    }
}

impl<T: ?Sized, U> vstd::std_specs::convert::FromSpecImpl<U> for UniqArc<T> where Arc<T>: MakeMut<T = T> + From<U> {
    open spec fn obeys_from_spec() -> bool {
        false
    }

    open spec fn from_spec(value: U) -> Self {
        arbitrary()
    }
}

impl<T, const N: usize> From<UniqArc<[T; N]>> for UniqArc<[T]> {
    /// The same allocation, held as a slice.
    fn from(this: UniqArc<[T; N]>) -> (r: Self)
        ensures
            r@ == this@@,
    {
        UniqArc { arc: arc_unsize(this.arc) }
    }
}

impl<T, const N: usize> vstd::std_specs::convert::FromSpecImpl<UniqArc<[T; N]>> for UniqArc<[T]> {
    open spec fn obeys_from_spec() -> bool {
        false
    }

    open spec fn from_spec(this: UniqArc<[T; N]>) -> Self {
        arbitrary()
    }
}

impl<T, const N: usize> TryFrom<UniqArc<[T]>> for UniqArc<[T; N]> {
    type Error = Arc<[T]>;

    /// The same allocation, held as an array, if the slice has `N` items.
    /// If not, the pointer comes back as it was, in `Err`.
    fn try_from(this: UniqArc<[T]>) -> (r: Result<Self, Arc<[T]>>)
        ensures
            match r {
                Ok(a) => this@.len() == N && a@@ == this@,
                Err(e) => this@.len() != N && e == this.shared(),
            },
    {
        match arc_sized::<T, N>(this.arc) {
            Ok(arc) => Ok(UniqArc { arc }),
            Err(arc) => Err(arc),
        }
    }
}

impl<T, const N: usize> vstd::std_specs::convert::TryFromSpecImpl<UniqArc<[T]>> for UniqArc<[T; N]> {
    open spec fn obeys_try_from_spec() -> bool {
        false
    }

    open spec fn try_from_spec(this: UniqArc<[T]>) -> Result<Self, Arc<[T]>> {
        arbitrary()
    }
}

impl<T: ?Sized> Into<Arc<T>> for UniqArc<T> {
    fn into(self) -> Arc<T> {
        Self::into_rc(self)
    }
}

impl<T: ?Sized> vstd::std_specs::convert::IntoSpecImpl<Arc<T>> for UniqArc<T> {
    open spec fn obeys_into_spec() -> bool {
        true
    }

    open spec fn into_spec(self) -> Arc<T> {
        self.shared()
    }
}

impl From<UniqArc<str>> for Arc<[u8]> {
    /// The same allocation, seen as the bytes of the string.
    fn from(this: UniqArc<str>) -> (r: Self)
        ensures
            r@ == this.pointee().spec_bytes(),
    {
        arc_str_bytes(this.arc)
    }
}

impl vstd::std_specs::convert::FromSpecImpl<UniqArc<str>> for Arc<[u8]> {
    open spec fn obeys_from_spec() -> bool {
        false
    }

    open spec fn from_spec(this: UniqArc<str>) -> Self {
        arbitrary()
    }
}

} // verus!
