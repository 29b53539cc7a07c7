//! Times on the wire.

use crate::config::Timeout;
use vstd::prelude::*;

verus! {

/// One more than the largest number of nanoseconds that the wire can hold.
pub const NANOS_MODULUS: u128 = 0x1_0000_0000_0000_0000;

/// The time on the wire for a moment that lies `since_epoch` after the Unix
/// epoch: its nanoseconds, of which the wire keeps the low 64 bits. A moment
/// before the epoch, which has no such distance, has no time on the wire.
pub fn to_nanos(since_epoch: Option<Timeout>) -> (r: Option<u64>)
    ensures
        match since_epoch {
            Some(elapsed) => r == Some((elapsed.nanos % NANOS_MODULUS) as u64),
            None => r.is_none(),
        },
{
    match since_epoch {
        Some(elapsed) => Some((elapsed.as_nanos() % NANOS_MODULUS) as u64),
        None => None,
    }
}

} // verus!
