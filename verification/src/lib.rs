//! A verified client core for a university course-management web portal.
//!
//! The portal speaks a mixture of JSON list endpoints and HTML detail
//! fragments with no formal schema.  This crate holds the logic of that
//! exchange: the single-sign-on ticket extraction, a fail-fast join
//! combinator for batches of concurrent fetches, the normalization of the
//! portal's inconsistent JSON envelopes into typed records, and the
//! extraction of attachment links and reply trees from semi-structured
//! markup.  All network transport stays outside; the functions here take
//! response bodies and decoded values and are verified against their
//! contracts.

use vstd::prelude::*;

pub mod auth;
pub mod datetime;
pub mod errors;
pub mod fetchers;
pub mod html;
pub mod json;
pub mod parse;
pub mod strutil;
pub mod try_join;
pub mod types;
pub mod urls;

verus! {

/// The owned form of a resource-scoped identifier.  Identifiers are opaque
/// strings, unique within one resource type, and are never interpreted
/// except as concatenation into URLs.
pub type Id = String;

/// The borrowed form of a resource-scoped identifier.
pub type IdRef<'a> = &'a str;

/// The trailing number of a fall semester's identifier.
pub const SEMESTER_FALL: u32 = 1;

/// The trailing number of a spring semester's identifier.
pub const SEMESTER_SPRING: u32 = 2;

/// The trailing number of a summer semester's identifier.
pub const SEMESTER_SUMMER: u32 = 3;

} // verus!
