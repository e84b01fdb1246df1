//! The minimal todo front: it only logs what clients send.

use vstd::prelude::*;

verus! {

/// What a client signs up or signs in with.
pub struct UserData {
    pub name: String,
    pub password: String,
    pub mobile: i64,
}

} // verus!
