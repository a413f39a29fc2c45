//! Wireless access-point selection and a client's download-progress state machine.
//!
//! `selector` picks, for each client, the access point with the strongest
//! signal; `progress` advances each client's download by the elapsed time and
//! whether its signal is strong enough to count as connected.
use vstd::prelude::*;

pub mod progress;
pub mod selector;

verus! {

} // verus!
