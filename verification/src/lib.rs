//! Verified core of a multipart-form backed content service.
//!
//! The crate models multipart form decoding as pure logic: a declared field
//! set ([`fields`]) is checked against a bag of raw fields ([`bag`]), values
//! are coerced ([`numbers`]), and typed entity payloads ([`gallery`],
//! [`news`], [`program`]) are built from the decoded result ([`form_data`]).
//! The decoder's laws are proved in [`laws`]. Around that core stand the
//! stored-password scheme ([`password`]), upload bookkeeping ([`upload`]),
//! user enumerations ([`user`]) and the response header set ([`cors`]).

pub mod bag;
pub mod cors;
pub mod errors;
pub mod fields;
pub mod form_data;
pub mod gallery;
pub mod laws;
pub mod news;
pub mod numbers;
pub mod password;
pub mod program;
pub mod program_form;
pub mod text;
pub mod upload;
pub mod user;

use vstd::prelude::*;

verus! {

} // verus!
