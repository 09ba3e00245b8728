//! Interpretation of what the native entry points hand back: the
//! zero-means-success convention of the property accessors, and the signed
//! length argument the statistics renderer is given.

use vstd::prelude::*;

verus! {

/// Outcome of reading a numeric property. The native call hands back a
/// result code and writes the value through an out-parameter: code zero
/// means the property was known and `value` holds it; any other code is
/// surfaced unchanged as the error.
pub fn property_read_result(code: i32, value: usize) -> (r: Result<usize, i32>)
    ensures
        code == 0 ==> r == Ok::<usize, i32>(value),
        code != 0 ==> r == Err::<usize, i32>(code),
{
    if code == 0 {
        Ok(value)
    } else {
        Err(code)
    }
}

/// Outcome of writing a numeric property: code zero means the property was
/// known and the value was applied; any other code is surfaced unchanged as
/// the error.
pub fn property_write_result(code: i32) -> (r: Result<(), i32>)
    ensures
        code == 0 ==> r == Ok::<(), i32>(()),
        code != 0 ==> r == Err::<(), i32>(code),
{
    if code == 0 {
        Ok(())
    } else {
        Err(code)
    }
}

/// Length argument for the statistics renderer, which takes a signed 32-bit
/// count of bytes it may write into the caller's buffer. The result is
/// never negative and never exceeds the buffer's length, so the renderer is
/// never told it may write more than the caller supplied; a buffer longer
/// than `i32::MAX` bytes is reported as `i32::MAX`.
pub fn report_capacity(buffer_len: usize) -> (r: i32)
    ensures
        0 <= r,
        r as int <= buffer_len as int,
        buffer_len <= i32::MAX as usize ==> r as int == buffer_len as int,
        buffer_len > i32::MAX as usize ==> r == i32::MAX,
{
    if buffer_len <= i32::MAX as usize {
        buffer_len as i32
    } else {
        i32::MAX
    }
}

} // verus!
