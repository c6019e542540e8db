use vstd::prelude::*;
use core::marker::PhantomData;
use crate::metadata::{Metadata, Tag};

verus! {

/// The metadata word of a fat reference: always a word produced by packing an `M`.
#[derive(Debug)]
struct Packed<M: Metadata> {
    slot: usize,
    phantom: PhantomData<M>,
}

impl<M: Metadata> Packed<M> {
    #[verifier::type_invariant]
    spec fn inv(self) -> bool {
        M::is_slot(self.slot)
    }

    /// The metadata value that the word stands for.
    spec fn value(self) -> M {
        M::value_of(self.slot)
    }

    /// The packed form of `m`.
    spec fn packed_of(m: M) -> Self {
        Packed { slot: M::slot_of(m), phantom: PhantomData }
    }

    /// Packs `m` into one word.
    fn new(m: M) -> (r: Self)
        ensures
            r == Self::packed_of(m),
            r.value() == m,
    {
        proof {
            M::lemma_codec(m);
        }
        Packed { slot: m.pack().0, phantom: PhantomData }
    }

    /// Unpacks the metadata value.
    fn get(&self) -> (r: M)
        ensures
            r == self.value(),
    {
        proof {
            use_type_invariant(self);
        }
        M::unpack(Tag(self.slot))
    }
}

impl<M: Metadata> Clone for Packed<M> {
    fn clone(&self) -> (r: Self)
        ensures
            r == *self,
    {
        *self
    }
}

impl<M: Metadata> Copy for Packed<M> {
}

/// A shared reference to a `P` that also carries one word of metadata of type `M`.
///
/// It is two words wide: the address of the pointee and the packed metadata.
/// It borrows the pointee exactly as `&'a P` does.
#[derive(Debug)]
pub struct FatRef<'a, P, M: Metadata> {
    pointee: &'a P,
    tag: Packed<M>,
}

impl<'a, P, M: Metadata> FatRef<'a, P, M> {
    /// This fat reference with its metadata replaced by `tag`.
    pub closed spec fn with_tag(self, tag: M) -> Self {
        Self::fat_of(self.pointee, tag)
    }

    /// Replaces the metadata of this fat reference, keeping its pointee.
    pub fn set_tag(&mut self, tag: M)
        ensures
            *final(self) == old(self).with_tag(tag),
            final(self).target() == old(self).target(),
            final(self).meta() == tag,
    {
        *self = Self::from_ref(self.to_plain(), tag);
    }
}

impl<'a, P, M: Metadata> Clone for FatRef<'a, P, M> {
    fn clone(&self) -> (r: Self)
        ensures
            r == *self,
    {
        *self
    }
}

impl<'a, P, M: Metadata> Copy for FatRef<'a, P, M> {
}

impl<'a, P, M: Metadata> AsRef<P> for FatRef<'a, P, M> {
    /// Reads through to the pointee.
    fn as_ref(&self) -> (r: &P)
        ensures
            r == self.target(),
    {
        self.pointee
    }
}

/// Methods of a shared fat reference.
pub trait FatRefExt<'a>: Sized {
    type Target;
    type Meta: Metadata;

    /// The plain reference that this fat reference carries.
    spec fn target(self) -> &'a Self::Target;

    /// The metadata that this fat reference carries.
    spec fn meta(self) -> Self::Meta;

    /// The fat reference that carries `plain` and `metadata`.
    spec fn fat_of(plain: &'a Self::Target, metadata: Self::Meta) -> Self;

    /// Makes a fat reference from a plain reference and a metadata value.
    fn from_ref(thin_ref: &'a Self::Target, metadata: Self::Meta) -> (r: Self)
        ensures
            r == Self::fat_of(thin_ref, metadata),
            r.target() == thin_ref,
            r.meta() == metadata,
    ;

    /// Turns this fat reference back into the plain reference it was made from.
    fn to_plain(self) -> (r: &'a Self::Target)
        ensures
            r == self.target(),
    ;

    /// Returns the metadata of this fat reference.
    fn tag(self) -> (r: Self::Meta)
        ensures
            r == self.meta(),
    ;
}

impl<'a, P, M: Metadata> FatRefExt<'a> for FatRef<'a, P, M> {
    type Target = P;
    type Meta = M;

    closed spec fn target(self) -> &'a P {
        self.pointee
    }

    closed spec fn meta(self) -> M {
        self.tag.value()
    }

    closed spec fn fat_of(plain: &'a P, metadata: M) -> Self {
        FatRef { pointee: plain, tag: Packed::packed_of(metadata) }
    }

    fn from_ref(thin_ref: &'a P, metadata: M) -> (r: Self) {
        FatRef { pointee: thin_ref, tag: Packed::new(metadata) }
    }

    fn to_plain(self) -> (r: &'a P) {
        self.pointee
    }

    fn tag(self) -> (r: M) {
        self.tag.get()
    }
}

/// Turning a fat reference back into a plain one gives the reference it was
/// made from, with the same address.
pub proof fn lemma_address_preserved<'a, P, M: Metadata>(p: &'a P, m: M)
    ensures
        FatRef::<'a, P, M>::fat_of(p, m).target() == p,
{
}

/// Reading the metadata of a fat reference gives the value it was made with.
pub proof fn lemma_tag_round_trip<'a, P, M: Metadata>(p: &'a P, m: M)
    ensures
        FatRef::<'a, P, M>::fat_of(p, m).meta() == m,
{
    M::lemma_codec(m);
}

/// Re-tagging keeps the pointee and replaces the metadata: the result is the
/// fat reference made from the same plain reference and the new metadata.
pub proof fn lemma_retag<'a, P, M: Metadata>(p: &'a P, m1: M, m2: M)
    ensures
        FatRef::<'a, P, M>::fat_of(p, m1).with_tag(m2) == FatRef::<'a, P, M>::fat_of(p, m2),
        FatRef::<'a, P, M>::fat_of(p, m1).with_tag(m2).target() == p,
        FatRef::<'a, P, M>::fat_of(p, m1).with_tag(m2).meta() == m2,
{
    M::lemma_codec(m2);
}

/// An exclusive reference to a `P` that also carries one word of metadata of type `M`.
///
/// It is two words wide and borrows the pointee exactly as `&'a mut P` does.
#[derive(Debug)]
pub struct FatRefMut<'a, P, M: Metadata> {
    pointee: &'a mut P,
    tag: Packed<M>,
}

impl<'a, P, M: Metadata> FatRefMut<'a, P, M> {
    /// Replaces the metadata of this fat reference, keeping its pointee.
    pub fn set_tag(&mut self, tag: M)
        ensures
            final(self).target() == old(self).target(),
            final(self).meta() == tag,
    {
        self.tag = Packed::new(tag);
    }
}

impl<'a, P, M: Metadata> AsRef<P> for FatRefMut<'a, P, M> {
    /// Reads through to the pointee.
    fn as_ref(&self) -> (r: &P)
        ensures
            *r == *self.target(),
    {
        &*self.pointee
    }
}

impl<'a, P, M: Metadata> AsMut<P> for FatRefMut<'a, P, M> {
    /// Gives exclusive access to the pointee, keeping the metadata.
    fn as_mut(&mut self) -> (r: &mut P)
        ensures
            *r == *old(self).target(),
            *final(self).target() == *final(r),
            final(self).meta() == old(self).meta(),
    {
        &mut *self.pointee
    }
}

/// Methods of an exclusive fat reference.
pub trait FatRefMutExt<'a>: Sized {
    type Target;
    type Meta: Metadata;

    /// The plain exclusive reference that this fat reference carries.
    spec fn target(self) -> &'a mut Self::Target;

    /// The metadata that this fat reference carries.
    spec fn meta(self) -> Self::Meta;

    /// Makes a fat exclusive reference from a plain one and a metadata value.
    fn from_ref_mut(thin_ref: &'a mut Self::Target, tag: Self::Meta) -> (r: Self)
        ensures
            *r.target() == *old(thin_ref),
            *final(r.target()) == *final(thin_ref),
            r.meta() == tag,
    ;

    /// Turns this fat reference back into the plain exclusive reference it was made from.
    fn to_plain_mut(self) -> (r: &'a mut Self::Target)
        ensures
            *r == *self.target(),
            *final(r) == *final(self.target()),
    ;

    /// Returns the metadata of this fat reference.
    fn get_tag(&self) -> (r: Self::Meta)
        ensures
            r == self.meta(),
    ;
}

impl<'a, P, M: Metadata> FatRefMutExt<'a> for FatRefMut<'a, P, M> {
    type Target = P;
    type Meta = M;

    closed spec fn target(self) -> &'a mut P {
        self.pointee
    }

    closed spec fn meta(self) -> M {
        self.tag.value()
    }

    fn from_ref_mut(thin_ref: &'a mut P, tag: M) -> (r: Self) {
        FatRefMut { pointee: thin_ref, tag: Packed::new(tag) }
    }

    fn to_plain_mut(self) -> (r: &'a mut P) {
        self.pointee
    }

    fn get_tag(&self) -> (r: M) {
        self.tag.get()
    }
}

/// Turns any plain reference into its fat form: `(&x).tag(m)` means
/// `FatRef::from_ref(&x, m)` and `(&mut x).tag(m)` means
/// `FatRefMut::from_ref_mut(&mut x, m)`.
pub trait RefExt<M: Metadata>: Sized {
    type Output;

    /// Whether `out` is the fat form of `plain` carrying `metadata`: it points
    /// at what `plain` points at and carries `metadata`. (For the exclusive
    /// form, `FatRefMutExt::from_ref_mut` also states that writes through the
    /// fat reference reach the pointee.)
    spec fn is_tagged(plain: Self, metadata: M, out: Self::Output) -> bool;

    /// Attaches `metadata` to this reference.
    fn tag(self, metadata: M) -> (r: Self::Output)
        ensures
            Self::is_tagged(self, metadata, r),
    ;
}

impl<'a, T, M: Metadata> RefExt<M> for &'a T {
    type Output = FatRef<'a, T, M>;

    open spec fn is_tagged(plain: &'a T, metadata: M, out: FatRef<'a, T, M>) -> bool {
        &&& out == FatRef::<'a, T, M>::fat_of(plain, metadata)
        &&& out.target() == plain
        &&& out.meta() == metadata
    }

    fn tag(self, metadata: M) -> (r: FatRef<'a, T, M>) {
        FatRef::from_ref(self, metadata)
    }
}

impl<'a, T, M: Metadata> RefExt<M> for &'a mut T {
    type Output = FatRefMut<'a, T, M>;

    open spec fn is_tagged(plain: &'a mut T, metadata: M, out: FatRefMut<'a, T, M>) -> bool {
        *out.target() == *plain && out.meta() == metadata
    }

    fn tag(self, metadata: M) -> (r: FatRefMut<'a, T, M>) {
        FatRefMut { pointee: self, tag: Packed::new(metadata) }
    }
}

} // verus!
