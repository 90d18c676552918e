//! HTTP archives: reading an archive's JSON document into a typed model,
//! writing it back, and deciding what replaying one captured request sends
//! and how the observed response is reported.
use vstd::prelude::*;

pub mod archive;
pub mod codec;
pub mod har;
pub mod json;
pub mod replay;
pub mod wire;

verus! {

} // verus!
