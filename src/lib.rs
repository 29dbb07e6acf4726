//! Log diagnosis over a chat stream: the per-message dispatch policy, the
//! attachment view rows, the reply delete cascade and the rendering proxy's
//! content-type check and error pages.
use vstd::prelude::*;

pub mod cascade;
pub mod dispatch;
pub mod proxy;
pub mod reply;
pub mod text;
pub mod views;

verus! {

} // verus!
