//! A transaction-scoped unit of work: operations run against one shared
//! transaction handle, or against none, and the handle is committed once at
//! the end when every operation succeeded.
use vstd::prelude::*;

pub mod repositories;
pub mod unit_of_work;

verus! {

} // verus!
