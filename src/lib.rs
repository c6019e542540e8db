//! Tagged references: a reference to a value together with one machine word of
//! caller-chosen metadata, stored inline beside the address.
//!
//! A [`FatRef`] (or its exclusive form [`FatRefMut`]) is built from a plain
//! reference and a metadata value; the value is packed into a single word by its
//! [`Metadata`] codec and can be read back, replaced, or dropped again to recover
//! the plain reference.

pub mod fat;
pub mod metadata;

pub use fat::{FatRef, FatRefExt, FatRefMut, FatRefMutExt, RefExt};
pub use metadata::{Metadata, Tag};

