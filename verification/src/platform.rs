//! Identifiers shared by the platform code.
use vstd::prelude::*;

verus! {

/// The identifier of the only input device that macOS reports.
#[derive(Debug, Copy, Clone, PartialEq, Eq, Structural, PartialOrd, Ord, Hash)]
pub struct DeviceId;

impl DeviceId {
    /// The device identifier.
    pub fn dummy() -> (r: DeviceId)
        ensures
            r == DeviceId,
    {
        DeviceId
    }
}

/// The identifier of a window: the address of its native window object.
#[derive(Debug, Copy, Clone, PartialEq, Eq, Structural, PartialOrd, Ord, Hash)]
pub struct WindowId(pub usize);

impl WindowId {
    /// A placeholder identifier.
    pub fn dummy() -> (r: WindowId)
        ensures
            r.0 == 0,
    {
        WindowId(0)
    }

    /// The identifier as a `u64`.
    pub fn to_u64(self) -> (r: u64)
        ensures
            r == self.0,
    {
        self.0 as u64
    }

    /// The identifier of a raw `u64` (truncated where `usize` is narrower).
    pub fn from_u64(raw_id: u64) -> (r: WindowId)
        ensures
            r.0 == raw_id as usize,
    {
        WindowId(#[verifier::truncate] (raw_id as usize))
    }
}

/// A window identifier turned into a `u64` and back is the same identifier.
pub proof fn lemma_window_id_round_trip(id: WindowId)
    ensures
        ((id.0 as u64) as usize) == id.0,
{
    let x = id.0;
    assert((x as u64) as usize == x) by (bit_vector);
}

} // verus!
