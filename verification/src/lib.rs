//! A request-counter service: a shared counter incremented once per request
//! to the counter route, plus the fixed responses of the other routes.

pub mod counter;
pub mod decimal;
pub mod routes;

use vstd::prelude::*;

verus! {

} // verus!
