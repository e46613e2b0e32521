use core::cmp::Ordering;
use core::fmt::{Debug, Display, Formatter};
use core::hash::{Hash, Hasher};
use core::ops::{Deref, DerefMut};
use vstd::prelude::*;
use vstd::std_specs::cmp::{OrdSpec, PartialEqSpec, PartialOrdSpec};

verus! {

/// Wrap an object of type `T` to give it the alignment requirements of an object of type `A`.
///
/// This has the effect of `#[repr(align(...))]`, but is parameterized by a type, so that
/// structures can be generic over their alignment.
#[derive(Clone, Copy)]
pub struct AlignAs<T: Copy, A: Copy> {
    value: T,
    align: [A; 0],
}

impl<T: Copy, A: Copy> View for AlignAs<T, A> {
    type V = T;

    /// The wrapped value; the alignment slot holds nothing.
    closed spec fn view(&self) -> T {
        self.value
    }
}

impl<T: Copy, A: Copy> AlignAs<T, A> {
    /// Put the given `T` object into an aligned location.
    pub fn new(t: T) -> (r: Self)
        ensures
            r@ == t,
    {
        AlignAs { value: t, align: [] }
    }
}

impl<T: Copy, A: Copy> Deref for AlignAs<T, A> {
    type Target = T;

    /// Read access to the wrapped value.
    fn deref(&self) -> (r: &T)
        ensures
            *r == self@,
    {
        &self.value
    }
}

impl<T: Copy, A: Copy> DerefMut for AlignAs<T, A> {
    /// Write access to the wrapped value: what is written through the returned reference is
    /// what the wrapper holds afterwards.
    fn deref_mut(&mut self) -> (r: &mut T)
        ensures
            *r == old(self)@,
            final(self)@ == *final(r),
    {
        &mut self.value
    }
}

impl<T: Default + Copy, A: Copy> Default for AlignAs<T, A> {
    /// Wrap the default value of `T`.
    fn default() -> (r: Self)
        ensures
            call_ensures(T::default, (), r@),
    {
        Self::new(T::default())
    }
}

impl<T: PartialEq + Copy, A: Copy> PartialEq for AlignAs<T, A> {
    /// Two wrappers are equal when their values are.
    fn eq(&self, rhs: &Self) -> (r: bool)
        ensures
            T::obeys_eq_spec() ==> r == self@.eq_spec(&rhs@),
    {
        self.value.eq(&rhs.value)
    }
}

impl<T: PartialEq + Copy, A: Copy> vstd::std_specs::cmp::PartialEqSpecImpl for AlignAs<T, A> {
    open spec fn obeys_eq_spec() -> bool {
        T::obeys_eq_spec()
    }

    open spec fn eq_spec(&self, rhs: &Self) -> bool {
        self@.eq_spec(&rhs@)
    }
}

impl<T: Eq + Copy, A: Copy> Eq for AlignAs<T, A> {

}

impl<T: PartialOrd + Copy, A: Copy> PartialOrd for AlignAs<T, A> {
    /// Wrappers are ordered as their values are.
    fn partial_cmp(&self, rhs: &Self) -> (r: Option<Ordering>)
        ensures
            T::obeys_partial_cmp_spec() ==> r == self@.partial_cmp_spec(&rhs@),
    {
        self.value.partial_cmp(&rhs.value)
    }
}

impl<T: PartialOrd + Copy, A: Copy> vstd::std_specs::cmp::PartialOrdSpecImpl for AlignAs<T, A> {
    open spec fn obeys_partial_cmp_spec() -> bool {
        T::obeys_partial_cmp_spec()
    }

    open spec fn partial_cmp_spec(&self, rhs: &Self) -> Option<Ordering> {
        self@.partial_cmp_spec(&rhs@)
    }
}

impl<T: Ord + Copy, A: Copy> Ord for AlignAs<T, A> {
    /// Wrappers are ordered as their values are.
    ///
    /// Relies on `Ord::cmp` of `T`, whose result is returned as it is. The body is trusted rather
    /// than verified because vstd lets no type outside it give `Ord` a spec of its own.
    #[verifier::external_body]
    fn cmp(&self, rhs: &Self) -> (r: Ordering)
        ensures
            T::obeys_cmp_spec() ==> r == self@.cmp_spec(&rhs@),
    {
        self.value.cmp(&rhs.value)
    }
}

impl<T: Hash + Copy, A: Copy> Hash for AlignAs<T, A> {
    /// Feeds the hasher exactly what the value alone would: nothing of `A` is hashed.
    ///
    /// Relies on `Hash::hash` of `T`, which vstd does not specify.
    #[verifier::external_body]
    fn hash<H: Hasher>(&self, h: &mut H) {
        self.value.hash(h)
    }
}

/// `core::fmt::Formatter`, carried through to the value's own formatting and never read here.
#[verifier::external_type_specification]
#[verifier::external_body]
pub struct ExFormatter<'a>(Formatter<'a>);

/// `core::fmt::Error`, handed back from the value's own formatting as it came.
#[verifier::external_type_specification]
#[verifier::external_body]
pub struct ExFmtError(core::fmt::Error);

impl<T: Debug + Copy, A: Copy> Debug for AlignAs<T, A> {
    /// Formats as the value alone would be formatted.
    ///
    /// Relies on `Debug::fmt` of `T`.
    #[verifier::external_body]
    fn fmt(&self, f: &mut Formatter) -> core::fmt::Result {
        self.value.fmt(f)
    }
}

impl<T: Display + Copy, A: Copy> Display for AlignAs<T, A> {
    /// Formats as the value alone would be formatted.
    ///
    /// Relies on `Display::fmt` of `T`.
    #[verifier::external_body]
    fn fmt(&self, f: &mut Formatter) -> core::fmt::Result {
        self.value.fmt(f)
    }
}

/// Wrapping a value and then reading it through the transparent view yields that value.
pub proof fn lemma_read_after_new<T: Copy, A: Copy>(v: T)
    ensures
        forall|w: AlignAs<T, A>, r: &T|
            call_ensures(AlignAs::<T, A>::new, (v,), w) && #[trigger] call_ensures(
                AlignAs::<T, A>::deref,
                (&w,),
                r,
            ) ==> *r == v,
{
}

/// A default-constructed wrapper reads as a default value of `T`.
pub proof fn lemma_read_after_default<T: Default + Copy, A: Copy>(w: AlignAs<T, A>)
    requires
        call_ensures(AlignAs::<T, A>::default, (), w),
    ensures
        forall|r: &T| #[trigger]
            call_ensures(AlignAs::<T, A>::deref, (&w,), r) ==> call_ensures(T::default, (), *r),
{
}

/// Equality and ordering of wrappers depend on the wrapped values alone: wrappers over the same
/// values compare alike whatever type they borrow their alignment from, and alike to the values
/// themselves.
pub proof fn lemma_compare_ignores_alignment<T: PartialOrd + Copy, A: Copy, B: Copy>(
    x: AlignAs<T, A>,
    y: AlignAs<T, A>,
    u: AlignAs<T, B>,
    v: AlignAs<T, B>,
)
    requires
        x@ == u@,
        y@ == v@,
    ensures
        AlignAs::<T, A>::obeys_eq_spec() == T::obeys_eq_spec(),
        AlignAs::<T, B>::obeys_eq_spec() == T::obeys_eq_spec(),
        x.eq_spec(&y) == u.eq_spec(&v),
        x.eq_spec(&y) == x@.eq_spec(&y@),
        AlignAs::<T, A>::obeys_partial_cmp_spec() == T::obeys_partial_cmp_spec(),
        AlignAs::<T, B>::obeys_partial_cmp_spec() == T::obeys_partial_cmp_spec(),
        x.partial_cmp_spec(&y) == u.partial_cmp_spec(&v),
        x.partial_cmp_spec(&y) == x@.partial_cmp_spec(&y@),
{
}

/// Ordering of wrappers under `Ord` depends on the wrapped values alone: wrappers over the same
/// values compare alike whatever type they borrow their alignment from, and as the values
/// themselves compare.
pub proof fn lemma_cmp_ignores_alignment<T: Ord + Copy, A: Copy, B: Copy>(
    x: AlignAs<T, A>,
    y: AlignAs<T, A>,
    u: AlignAs<T, B>,
    v: AlignAs<T, B>,
)
    requires
        x@ == u@,
        y@ == v@,
        T::obeys_cmp_spec(),
    ensures
        forall|r: Ordering, s: Ordering|
            #[trigger] call_ensures(AlignAs::<T, A>::cmp, (&x, &y), r) && #[trigger] call_ensures(
                AlignAs::<T, B>::cmp,
                (&u, &v),
                s,
            ) ==> r == s && r == x@.cmp_spec(&y@),
{
}

} // verus!
