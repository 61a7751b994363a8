//! The cancellation flag: set from outside, read here.

use std::sync::atomic::{AtomicBool, Ordering};
use std::sync::Arc;
use vstd::prelude::*;

verus! {

/// Reads the flag once. It may be set at any moment, so nothing is known
/// of the answer beforehand.
pub(crate) fn cancellation_requested(flag: &Arc<AtomicBool>) -> (requested: bool) {
    flag.load(Ordering::SeqCst)
}

} // verus!
