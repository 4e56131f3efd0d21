//! Owned-or-borrowed conversion.
//!
//! [`Cib`] lets a function accept either an owned value or a reference to a
//! value and obtain an owned value in one way: an owned value is moved, a
//! borrowed one is cloned. The reference case is provided here once for every
//! `Clone` type; the owned case has to be written per type, since a blanket
//! owned impl would overlap with the reference one. [`derive::derive_cib`]
//! produces the text of that owned impl for a type declaration.

pub mod convert;
pub mod derive;

pub use convert::Cib;
