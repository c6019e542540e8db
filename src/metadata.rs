use vstd::prelude::*;
use vstd::utf8::{char_is_scalar, char_u32_cast, is_scalar};

verus! {

/// One machine word holding packed metadata.
///
/// The fat-reference machinery never interprets these bits; only a
/// [`Metadata`] codec gives them a meaning.
pub struct Tag(pub usize);

/// A value type that fits in one machine word and can travel as a tag.
///
/// A codec is a pair of total, bit-level conversions between the value and
/// a [`Tag`]. `pack` is injective and `unpack` inverts it on every word that
/// `pack` can produce (`lemma_codec`).
pub trait Metadata: Sized {
    /// The word that `pack` produces for `v`.
    spec fn slot_of(v: Self) -> usize;

    /// Whether `s` is a word that `pack` can produce.
    spec fn is_slot(s: usize) -> bool;

    /// The value that a word produced by `pack` stands for.
    spec fn value_of(s: usize) -> Self;

    /// Every packed value is a valid slot and unpacks to itself.
    proof fn lemma_codec(v: Self)
        ensures
            Self::is_slot(Self::slot_of(v)),
            Self::value_of(Self::slot_of(v)) == v,
    ;

    /// Stuff this value into a tag.
    fn pack(self) -> (r: Tag)
        ensures
            r.0 == Self::slot_of(self),
    ;

    /// Unpack a value from a tag produced by `pack`.
    fn unpack(val: Tag) -> (r: Self)
        requires
            Self::is_slot(val.0),
        ensures
            r == Self::value_of(val.0),
    ;
}

/// Unpacking a packed value gives the value back, bit for bit.
pub proof fn lemma_round_trip<M: Metadata>(v: M)
    ensures
        M::is_slot(M::slot_of(v)),
        M::value_of(M::slot_of(v)) == v,
{
    M::lemma_codec(v);
}

/// Packing is injective: two values that pack to the same word are equal.
pub proof fn lemma_pack_injective<M: Metadata>(a: M, b: M)
    requires
        M::slot_of(a) == M::slot_of(b),
    ensures
        a == b,
{
    M::lemma_codec(a);
    M::lemma_codec(b);
}

impl Metadata for usize {
    open spec fn slot_of(v: usize) -> usize {
        v
    }

    open spec fn is_slot(s: usize) -> bool {
        true
    }

    open spec fn value_of(s: usize) -> usize {
        s
    }

    proof fn lemma_codec(v: usize) {
    }

    fn pack(self) -> (r: Tag) {
        Tag(self)
    }

    fn unpack(val: Tag) -> (r: usize) {
        val.0
    }
}

impl Metadata for u32 {
    open spec fn slot_of(v: u32) -> usize {
        v as usize
    }

    open spec fn is_slot(s: usize) -> bool {
        s <= u32::MAX
    }

    open spec fn value_of(s: usize) -> u32 {
        s as u32
    }

    proof fn lemma_codec(v: u32) {
    }

    fn pack(self) -> (r: Tag) {
        Tag(self as usize)
    }

    fn unpack(val: Tag) -> (r: u32) {
        val.0 as u32
    }
}

/// Relies on `char::from_u32`: it returns the `char` whose code is `n` when
/// `n` is a Unicode scalar value, and `None` otherwise.
#[verifier::external_body]
fn char_from_code(n: u32) -> (r: Option<char>)
    ensures
        r.is_some() <==> is_scalar(n),
        r matches Some(c) ==> c as u32 == n,
{
    char::from_u32(n)
}

impl Metadata for char {
    open spec fn slot_of(v: char) -> usize {
        (v as u32) as usize
    }

    open spec fn is_slot(s: usize) -> bool {
        s <= u32::MAX && is_scalar(s as u32)
    }

    open spec fn value_of(s: usize) -> char {
        (s as u32) as char
    }

    proof fn lemma_codec(v: char) {
        char_is_scalar(v);
        char_u32_cast(v, v as u32);
    }

    fn pack(self) -> (r: Tag) {
        Tag(self as u32 as usize)
    }

    fn unpack(val: Tag) -> (r: char) {
        let code = val.0 as u32;
        let c = char_from_code(code).unwrap();
        proof {
            char_u32_cast(c, code);
        }
        c
    }
}

} // verus!
