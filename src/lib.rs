//! A payment processor adapter: canonical payment model, request pipeline,
//! response and error handling, and status mapping for one processor.
use vstd::prelude::*;

pub mod amount;
pub mod model;
pub mod stripe;
pub mod transformers;

verus! {

} // verus!
