//! Change tracking for the fields of a persisted record.
//!
//! An [`attribute::Attribute`] holds one field: its raw input, the type that
//! coerces it, where the raw input came from, and the coerced value once it
//! has been read. An [`attribute_set::AttributeSet`] keeps the attributes of
//! one record in declaration order, and a [`builder::Builder`] stamps such
//! sets out from a template.
//!
//! Coercion, comparison and validation belong to the host. The library never
//! performs them: every operation that depends on the host takes the replies
//! received so far and either finishes or names the next request.
#![allow(deprecated)]

pub mod value;
pub mod host;
pub mod attribute;
pub mod reading;
pub mod tracking;
pub mod transitions;
pub mod equality;
pub mod codec;
pub mod ordered;
pub mod attribute_set;
pub mod set_reading;
pub mod set_copy;
pub mod builder;
pub mod set_laws;
pub mod replay;
