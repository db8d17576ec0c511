//! An `Rc` held by its only owner.
use crate::make_mut::cloned_items;
use crate::make_mut::MakeMut;
use std::rc::Rc;
use vstd::prelude::*;
use vstd::std_specs::iter::IteratorSpec;
use vstd::string::StringSliceAdditionalSpecFns;

verus! {

/// An `Rc` that no other `Rc` and no `Weak` shares.
///
/// Every constructor lets a pointer in only after `Rc` itself has shown it
/// to be the allocation's one pointer, has made it so, or has just made the
/// allocation. The field is private and no method lends or clones the `Rc`
/// inside, so it stays the one pointer for as long as the value lives. That
/// is what lets [`deref_mut`](std::ops::DerefMut::deref_mut) and
/// [`into_inner`](UniqRc::into_inner) reach the pointee without a fallible
/// step.
///
/// The reference counts belong to the allocation, not to the pointer's
/// value, so contracts speak of the pointee: [`pointee`](UniqRc::pointee),
/// or `@` where the pointee is sized, a slice or a string slice.
#[derive(Hash, Ord)]
pub struct UniqRc<T: ?Sized> {
    rc: Rc<T>,
}

/// `Rc::get_mut`: lends the pointee if `rc` is its allocation's only
/// pointer, strong or weak, and `None` if not. It changes nothing itself;
/// through the reference lent the caller decides what `rc` points to
/// afterwards.
#[verifier::external_body]
fn rc_get_mut<T: ?Sized>(rc: &mut Rc<T>) -> (r: Option<&mut T>)
    ensures
        match r {
            Some(p) => &*p == &**old(rc) && &**final(rc) == &*final(p),
            None => *final(rc) == *old(rc),
        },
{
    Rc::get_mut(rc)
}

/// `Rc::get_mut` on the pointer of a [`UniqRc`], with the reference taken
/// out of the `Option`. `Rc::get_mut` answers `None` only for a pointer that
/// shares its allocation, which the pointer of a `UniqRc` never does; the
/// call halts if it ever did.
#[verifier::external_body]
fn sole_mut<T: ?Sized>(this: &mut UniqRc<T>) -> (r: &mut T)
    ensures
        &*r == old(this).pointee(),
        final(this).pointee() == &*final(r),
{
    Rc::get_mut(&mut this.rc).expect("UniqRc: the pointer is shared")
}

/// `Rc::try_unwrap` on the pointer of a [`UniqRc`], with the value taken out
/// of the `Result`. `Rc::try_unwrap` answers `Err` only for a pointer that
/// another `Rc` shares, which the pointer of a `UniqRc` never does; the call
/// halts if it ever did.
#[verifier::external_body]
fn sole_value<T>(this: UniqRc<T>) -> (r: T)
    ensures
        r == *this.pointee(),
{
    Rc::try_unwrap(this.rc).ok().expect("UniqRc: the pointer is shared")
}

/// The unsizing of `Rc<[T; N]>` to `Rc<[T]>`: the same allocation, its
/// length carried in the pointer.
#[verifier::external_body]
fn rc_unsize<T, const N: usize>(rc: Rc<[T; N]>) -> (r: Rc<[T]>)
    ensures
        r@ == rc@,
{
    let slice: Rc<[T]> = rc;
    slice
}

/// `Rc::<[T; N]>::try_from`: the same allocation as an array if the slice
/// has `N` items, and else the slice handed back.
#[verifier::external_body]
fn rc_sized<T, const N: usize>(rc: Rc<[T]>) -> (r: Result<Rc<[T; N]>, Rc<[T]>>)
    ensures
        match r {
            Ok(a) => rc@.len() == N && a@ == rc@,
            Err(e) => rc@.len() != N && e == rc,
        },
{
    Rc::<[T; N]>::try_from(rc)
}

/// `Rc::<[T]>::from_iter`: a new allocation that holds what `iter` yields, in
/// the order in which it yields it.
#[verifier::external_body]
fn rc_from_iter<T, I: Iterator<Item = T>>(iter: I) -> (r: Rc<[T]>)
    ensures
        iter.obeys_prophetic_iter_laws() ==> r@ == iter.remaining(),
{
    Rc::from_iter(iter)
}

/// `Rc::<[u8]>::from` on an `Rc<str>`: the same allocation, seen as the
/// bytes of the string.
#[verifier::external_body]
fn rc_str_bytes(rc: Rc<str>) -> (r: Rc<[u8]>)
    ensures
        r@ == (&*rc).spec_bytes(),
{
    Rc::from(rc)
}

impl<T: ?Sized> UniqRc<T> {
    /// The pointer inside, as [`into_rc`](UniqRc::into_rc) gives it.
    pub closed spec fn shared(self) -> Rc<T> {
        self.rc
    }

    /// What the wrapper owns.
    pub open spec fn pointee(&self) -> &T {
        &*self.shared()
    }

    /// Takes `rc` if `sole` says that it is its allocation's only pointer,
    /// and hands it back if not.
    fn take_if(rc: Rc<T>, sole: bool) -> (r: Result<Self, Rc<T>>)
        ensures
            sole ==> r is Ok && r->Ok_0.shared() == rc,
            !sole ==> r is Err && r->Err_0 == rc,
    {
        if sole {
            Ok(UniqRc { rc })
        } else {
            Err(rc)
        }
    }

    /// Takes `rc` if it is its allocation's only pointer, strong or weak.
    /// If not, `rc` comes back as it was, in `Err`.
    ///
    /// Which of the two happens is for the allocation's reference counts to
    /// say, of which the value of `rc` tells nothing.
    pub fn try_new(rc: Rc<T>) -> (r: Result<Self, Rc<T>>)
        ensures
            match r {
                Ok(u) => u.shared() == rc,
                Err(e) => e == rc,
            },
    {
        let mut rc = rc;
        let sole = rc_get_mut(&mut rc).is_some();
        Self::take_if(rc, sole)
    }

    /// Gives the pointer back, free to be cloned and downgraded again. The
    /// pointee stays where it is.
    pub fn into_rc(this: Self) -> (r: Rc<T>)
        ensures
            r == this.shared(),
            &*r == this.pointee(),
    {
        this.rc
    }
}

impl<T: ?Sized> UniqRc<T> where Rc<T>: MakeMut<T = T> {
    /// Takes `rc`, first making it its allocation's only pointer: if another
    /// `Rc` or a `Weak` shares the pointee, the wrapper gets a copy of it in
    /// an allocation of its own and the others keep the old one.
    pub fn new(rc: Rc<T>) -> (r: Self)
        ensures
            <Rc<T> as MakeMut>::copy_of(MakeMut::pointee(&rc), MakeMut::pointee(&r.shared())),
    {
        UniqRc { rc: MakeMut::to_unique(rc) }
    }
}

impl<T> UniqRc<T> {
    /// Puts `value` in a new allocation, which has no other pointer.
    pub fn new_value(value: T) -> (r: Self)
        ensures
            r@ == value,
    {
        UniqRc { rc: Rc::new(value) }
    }

    /// Moves the pointee out and frees the allocation.
    pub fn into_inner(this: Self) -> (r: T)
        ensures
            r == this@,
    {
        sole_value(this)
    }
}

impl<T> View for UniqRc<T> {
    type V = T;

    open spec fn view(&self) -> T {
        *self.pointee()
    }
}

impl<T> View for UniqRc<[T]> {
    type V = Seq<T>;

    open spec fn view(&self) -> Seq<T> {
        self.pointee()@
    }
}

impl View for UniqRc<str> {
    type V = Seq<char>;

    open spec fn view(&self) -> Seq<char> {
        self.pointee()@
    }
}

impl<T: ?Sized> std::ops::Deref for UniqRc<T> {
    type Target = T;

    fn deref(&self) -> (r: &T)
        ensures
            r == self.pointee(),
    {
        &*self.rc
    }
}

impl<T: ?Sized> std::ops::DerefMut for UniqRc<T> {
    /// Lends the pointee for writing. What the wrapper owns afterwards is
    /// what the caller leaves behind the reference.
    fn deref_mut(&mut self) -> (r: &mut T)
        ensures
            &*r == old(self).pointee(),
            final(self).pointee() == &*final(r),
    {
        sole_mut(self)
    }
}

impl<T: ?Sized> AsRef<T> for UniqRc<T> {
    fn as_ref(&self) -> (r: &T)
        ensures
            r == self.pointee(),
    {
        &*self.rc
    }
}

impl<T: ?Sized> AsMut<T> for UniqRc<T> {
    fn as_mut(&mut self) -> (r: &mut T)
        ensures
            &*r == old(self).pointee(),
            final(self).pointee() == &*final(r),
    {
        sole_mut(self)
    }
}

impl<T: ?Sized> std::borrow::Borrow<T> for UniqRc<T> {
    fn borrow(&self) -> &T
        returns
            self.pointee(),
    {
        &*self.rc
    }
}

impl<T: ?Sized> std::borrow::BorrowMut<T> for UniqRc<T> {
    /// Lends the pointee for writing, as
    /// [`deref_mut`](std::ops::DerefMut::deref_mut) does.
    fn borrow_mut(&mut self) -> (r: &mut T)
        ensures
            ({
                let lent: &mut T = r;
                &&& &*lent == old(self).pointee()
                &&& final(self).pointee() == &*final(lent)
            }),
    {
        sole_mut(self)
    }
}

impl<T: ?Sized> Clone for UniqRc<T> where Rc<T>: MakeMut<T = T> {
    /// A wrapper of its own over a copy of the pointee.
    fn clone(&self) -> (r: Self)
        ensures
            <Rc<T> as MakeMut>::copy_of(
                MakeMut::pointee(&self.shared()),
                MakeMut::pointee(&r.shared()),
            ),
    {
        Self::new(Rc::clone(&self.rc))
    }
}

impl<T: Default> Default for UniqRc<T> {
    fn default() -> (r: Self)
        ensures
            T::default.ensures((), r@),
    {
        UniqRc { rc: Rc::new(T::default()) }
    }
}

impl<T: Clone> MakeMut for UniqRc<T> {
    type T = T;

    open spec fn pointee(&self) -> &T {
        UniqRc::pointee(self)
    }

    open spec fn copy_of(from: &T, to: &T) -> bool {
        cloned::<T>(*from, *to)
    }

    /// Lends the pointee, which is never copied: the wrapper is its only
    /// owner already.
    fn make_mut(this: &mut Self) -> (r: &mut T)
        ensures
            &*r == UniqRc::pointee(old(this)),
    {
        sole_mut(this)
    }
}

impl<T: Clone> MakeMut for UniqRc<[T]> {
    type T = [T];

    open spec fn pointee(&self) -> &[T] {
        UniqRc::pointee(self)
    }

    open spec fn copy_of(from: &[T], to: &[T]) -> bool {
        cloned_items::<T>(from@, to@)
    }

    /// Lends the pointee, which is never copied: the wrapper is its only
    /// owner already.
    fn make_mut(this: &mut Self) -> (r: &mut [T])
        ensures
            &*r == UniqRc::pointee(old(this)),
    {
        sole_mut(this)
    }
}

impl MakeMut for UniqRc<str> {
    type T = str;

    open spec fn pointee(&self) -> &str {
        UniqRc::pointee(self)
    }

    open spec fn copy_of(from: &str, to: &str) -> bool {
        from@ == to@
    }

    /// Lends the pointee, which is never copied: the wrapper is its only
    /// owner already.
    fn make_mut(this: &mut Self) -> (r: &mut str)
        ensures
            &*r == UniqRc::pointee(old(this)),
    {
        sole_mut(this)
    }
}

impl<T> UniqRc<[T]> {
    /// Collects what `iter` yields into a new allocation, which has no
    /// other pointer.
    pub fn from_iter<I: Iterator<Item = T>>(iter: I) -> (r: Self)
        ensures
            iter.obeys_prophetic_iter_laws() ==> r@ == iter.remaining(),
    {
        UniqRc { rc: rc_from_iter(iter) }
    }
}

impl<T: ?Sized, U> From<U> for UniqRc<T> where Rc<T>: MakeMut<T = T> + From<U> {
    /// Builds the `Rc` that `value` converts to and takes it as
    /// [`new`](UniqRc::new) does.
    fn from(value: U) -> (r: Self)
        ensures
            exists|rc: Rc<T>|
                {
                    &&& #[trigger] call_ensures(<Rc<T> as From<U>>::from, (value,), rc)
                    &&& <Rc<T> as MakeMut>::copy_of(MakeMut::pointee(&rc), MakeMut::pointee(&r.shared()))
                },
    {
        let rc: Rc<T> = Rc::from(value);
        Self::new(rc)
    }
}

impl<T: ?Sized, U> vstd::std_specs::convert::FromSpecImpl<U> for UniqRc<T> where Rc<T>: MakeMut<T = T> + From<U> {
    open spec fn obeys_from_spec() -> bool {
        false
    }

    open spec fn from_spec(value: U) -> Self {
        arbitrary()
    }
}

impl<T, const N: usize> From<UniqRc<[T; N]>> for UniqRc<[T]> {
    /// The same allocation, held as a slice.
    fn from(this: UniqRc<[T; N]>) -> (r: Self)
        ensures
            r@ == this@@,
    {
        UniqRc { rc: rc_unsize(this.rc) }
    }
}

impl<T, const N: usize> vstd::std_specs::convert::FromSpecImpl<UniqRc<[T; N]>> for UniqRc<[T]> {
    open spec fn obeys_from_spec() -> bool {
        false
    }

    open spec fn from_spec(this: UniqRc<[T; N]>) -> Self {
        arbitrary()
    }
}

impl<T, const N: usize> TryFrom<UniqRc<[T]>> for UniqRc<[T; N]> {
    type Error = Rc<[T]>;

    /// The same allocation, held as an array, if the slice has `N` items.
    /// If not, the pointer comes back as it was, in `Err`.
    fn try_from(this: UniqRc<[T]>) -> (r: Result<Self, Rc<[T]>>)
        ensures
            match r {
                Ok(a) => this@.len() == N && a@@ == this@,
                Err(e) => this@.len() != N && e == this.shared(),
            },
    {
        match rc_sized::<T, N>(this.rc) {
            Ok(rc) => Ok(UniqRc { rc }),
            Err(rc) => Err(rc),
        }
    }
}

impl<T, const N: usize> vstd::std_specs::convert::TryFromSpecImpl<UniqRc<[T]>> for UniqRc<[T; N]> {
    open spec fn obeys_try_from_spec() -> bool {
        false
    }

    open spec fn try_from_spec(this: UniqRc<[T]>) -> Result<Self, Rc<[T]>> {
        arbitrary()
    }
}

impl<T: ?Sized> Into<Rc<T>> for UniqRc<T> {
    fn into(self) -> Rc<T> {
        Self::into_rc(self)
    }
}

impl<T: ?Sized> vstd::std_specs::convert::IntoSpecImpl<Rc<T>> for UniqRc<T> {
    open spec fn obeys_into_spec() -> bool {
        true
    }

    open spec fn into_spec(self) -> Rc<T> {
        self.shared()
    }
}

impl From<UniqRc<str>> for Rc<[u8]> {
    /// The same allocation, seen as the bytes of the string.
    fn from(this: UniqRc<str>) -> (r: Self)
        ensures
            r@ == this.pointee().spec_bytes(),
    {
        rc_str_bytes(this.rc)
    }
}

impl vstd::std_specs::convert::FromSpecImpl<UniqRc<str>> for Rc<[u8]> {
    open spec fn obeys_from_spec() -> bool {
        false
    }

    open spec fn from_spec(this: UniqRc<str>) -> Self {
        arbitrary()
    }
}

} // verus!
