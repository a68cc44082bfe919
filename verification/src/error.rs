//! The one error this module can produce.

use vstd::prelude::*;

verus! {

/// Returned by the chord parser when a key token does not denote a
/// representable key. Carries the offending key token, not the whole chord.
#[derive(Clone, PartialEq, Eq, Hash, Debug)]
pub enum AppError {
    InvalidEvent(String),
}

} // verus!
