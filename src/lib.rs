//! Analysis and semantics of a derived builder for a record type with named fields.
//!
//! A record's schema (field names, declared types, attached annotations) is classified and
//! interpreted into a [`plan::BuilderPlan`]; [`runtime::Builder`] gives the behaviour of the
//! builder that such a plan describes.
pub mod schema;
pub mod shape;
pub mod annotation;
pub mod plan;
pub mod runtime;
