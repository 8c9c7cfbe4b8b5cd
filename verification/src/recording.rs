//! The session-recording hook.

use vstd::prelude::*;

verus! {

/// The observer offered every raw chunk that crosses the bridge, in either
/// direction. Recording is not part of this core: the hook accepts the
/// chunk and does nothing, and it must never alter or delay delivery.
pub fn record_data(_data: &Vec<u8>) {
}

} // verus!
