//! Naming of the workers that consume a job stream.

use vstd::prelude::*;
use crate::numfmt::{push_i64, signed_decimal};

verus! {

/// The consumer name of worker `worker_id`: `worker_<id>`.
pub fn consumer_name(worker_id: i32) -> (name: String)
    ensures
        name@ == "worker_"@ + signed_decimal(worker_id as int),
{
    let mut name = String::from_str("worker_");
    push_i64(&mut name, worker_id as i64);
    name
}

} // verus!
