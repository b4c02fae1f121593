use vstd::prelude::*;

pub mod absolute_url;
pub mod gateway;
pub mod laws;

verus! {

} // verus!
