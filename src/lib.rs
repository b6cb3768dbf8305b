//! Signed challenge/response protocol layer of an anti-automation service:
//! key material, claims, a token codec, a proof-of-work engine, tenant
//! authorization and the error taxonomy.
use vstd::prelude::*;

pub mod challenge;
pub mod encodings;
pub mod errors;
pub mod pow;
pub mod text;
pub mod tokens;
pub mod serial;

verus! {

} // verus!
