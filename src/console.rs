//! Buffers exchanged with the DOS console calls.
use vstd::prelude::*;
use vstd::string::StringSliceAdditionalSpecFns;

use crate::error_code::ErrorCode;

verus! {

/// The byte that ends a string for the DOS print call.
pub const PRINT_TERMINATOR: u8 = 0x24;

/// Checks that `text` holds the `$` that ends it for the DOS print call;
/// `InvalidFormat` otherwise.
pub fn check_print(text: &str) -> (r: Result<(), ErrorCode>)
    ensures
        r is Ok <==> text.spec_bytes().contains(PRINT_TERMINATOR),
        r is Err ==> r->Err_0 == ErrorCode::InvalidFormat,
{
    let bytes = text.as_bytes();
    let mut i: usize = 0;
    while i < bytes.len()
        invariant
            bytes@ == text.spec_bytes(),
            i <= bytes@.len(),
            forall|k: int| 0 <= k < i ==> bytes@[k] != PRINT_TERMINATOR,
        decreases bytes@.len() - i,
    {
        if bytes[i] == PRINT_TERMINATOR {
            return Ok(());
        }
        i = i + 1;
    }
    Err(ErrorCode::InvalidFormat)
}

/// The buffer for the buffered-input call: its first byte the most
/// characters to read, then room for the count read, the text and the
/// closing carriage return.
pub fn prompt_buffer(length: u8) -> (r: Vec<u8>)
    ensures
        r@.len() == length + 3,
        r@[0] == length,
        forall|k: int| 1 <= k < r@.len() ==> r@[k] == 0,
{
    let n: usize = length as usize + 3;
    let mut buffer: Vec<u8> = Vec::new();
    buffer.push(length);
    let mut i: usize = 1;
    while i < n
        invariant
            n == length + 3,
            1 <= i <= n,
            buffer@.len() == i,
            buffer@[0] == length,
            forall|k: int| 1 <= k < i ==> buffer@[k] == 0,
        decreases n - i,
    {
        buffer.push(0);
        i = i + 1;
    }
    buffer
}

/// The text the buffered-input call left in `buffer`: the count of bytes
/// read is in byte 1 and the text follows it. `None` when the count runs
/// past the buffer.
pub fn prompt_reply(buffer: &[u8]) -> (r: Option<Vec<u8>>)
    ensures
        (buffer@.len() >= 2 && 2 + buffer@[1] <= buffer@.len()) <==> r is Some,
        r is Some ==> r->Some_0@ == buffer@.subrange(2, 2 + buffer@[1]),
{
    if buffer.len() < 2 || 2 + buffer[1] as usize > buffer.len() {
        return None;
    }
    let end = 2 + buffer[1] as usize;
    let mut text: Vec<u8> = Vec::new();
    let mut i: usize = 2;
    while i < end
        invariant
            end <= buffer@.len(),
            2 <= i <= end,
            text@ == buffer@.subrange(2, i as int),
        decreases end - i,
    {
        text.push(buffer[i]);
        i = i + 1;
        assert(text@ =~= buffer@.subrange(2, i as int));
    }
    Some(text)
}

} // verus!
