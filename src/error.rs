use vstd::prelude::*;

verus! {

/// Every way in which a transfer or a decode can fail.
#[derive(Debug, Clone, Copy, PartialEq, Eq, Structural)]
pub enum DeviceError {
    /// The HID transport reported a failure.
    Transport,
    /// No answer came within the deadline.
    Timeout,
    /// The buffer ended before a required field.
    OutOfData,
    /// A string payload is not valid UTF-8.
    InvalidEncoding,
    /// A key action tag that the decoder does not know.
    UnknownActionId(u8),
    /// A macro action of a kind that is not decoded; its width is unknown.
    UnsupportedMacroAction(u8),
    /// A module slot byte that names no known slot.
    UnknownModuleSlot(u8),
    /// A response frame shorter than the field access needs.
    ShortRead,
}

pub type DeviceResult<T> = Result<T, DeviceError>;

/// `r` is what a decoder returned and `q` the cursor position afterwards;
/// `expected` is what the model of the wire format gives. On success the
/// value's view and the position must match; on failure the error must.
pub open spec fn decoded<T: View>(r: DeviceResult<T>, expected: Result<(T::V, int), DeviceError>, q: int) -> bool {
    match expected {
        Ok((v, p)) => r is Ok && r->Ok_0@ == v && q == p,
        Err(e) => r == Err::<T, DeviceError>(e),
    }
}

} // verus!
