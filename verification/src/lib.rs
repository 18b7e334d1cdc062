//! Schema derivation for a columnar (Arrow-style) array representation.
//!
//! Two components, both evaluated once per record-type definition:
//!
//! * a type capability registry ([`field`]) that maps primitive, optional,
//!   and sequence types to columnar type descriptors, and
//! * a derivation input model ([`input`]) that normalizes a record type's
//!   fields and directive annotations into the data needed to synthesize
//!   per-record-type codecs.

pub mod columnar;
pub mod field;
pub mod input;
pub mod text;
