//! Role-scoped core of a school-management backend.
//!
//! The library models the relational state of the application as the
//! [`school::School`] structure and verifies, for every role, which rows a
//! caller may read and which mutations a caller may perform.  Listing
//! functions return exactly the rows allowed by the caller's role-mandated
//! scope intersected with the caller-supplied filters; mutation functions
//! either apply a fully described state change or reject the request with a
//! precise error, leaving the state untouched.

use vstd::prelude::*;

pub mod auth;
pub mod deletes;
pub mod filters;
pub mod host;
pub mod laws;
pub mod listing;
pub mod people;
pub mod posts;
pub mod school;
pub mod scope;
pub mod seed;
pub mod selfassess;
pub mod structs;
pub mod sweep;
pub mod text;
pub mod updates;
pub mod uploads;

verus! {

/// Outcome of a rejected request, mirroring the error taxonomy of the
/// service: the caller is authenticated but not allowed, the payload is
/// invalid, a uniqueness invariant would be violated, the referenced row does
/// not exist, or the storage layer cannot accept another row.
#[derive(Clone, Copy, PartialEq, Eq, Structural, Debug)]
pub enum ApiError {
    Unauthorized,
    Validation,
    Conflict,
    NotFound,
    Storage,
}

} // verus!
