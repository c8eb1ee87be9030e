//! The hello device: every open sees the same immutable message.

use vstd::prelude::*;

verus! {

/// The message served by the hello device: `"Hello, world\n"`.
pub open spec fn hello_msg() -> Seq<u8> {
    seq![72u8, 101u8, 108u8, 108u8, 111u8, 44u8, 32u8, 119u8, 111u8, 114u8, 108u8, 100u8, 10u8]
}

/// Number of bytes a read at `offset` asking for `requested` bytes hands out.
pub open spec fn read_len(msg: Seq<u8>, offset: int, requested: int) -> int {
    if offset >= msg.len() {
        0
    } else if requested < msg.len() - offset {
        requested
    } else {
        msg.len() - offset
    }
}

/// The bytes a read at `offset` asking for `requested` bytes hands out.
pub open spec fn read_bytes(msg: Seq<u8>, offset: int, requested: int) -> Seq<u8> {
    if offset >= msg.len() {
        Seq::empty()
    } else {
        msg.subrange(offset, offset + read_len(msg, offset, requested))
    }
}

/// The message as bytes.
pub fn hello_message() -> (r: Vec<u8>)
    ensures
        r@ == hello_msg(),
{
    let r: Vec<u8> = vec![72u8, 101u8, 108u8, 108u8, 111u8, 44u8, 32u8, 119u8, 111u8, 114u8, 108u8, 100u8, 10u8];
    assert(r@ =~= hello_msg());
    r
}

/// Per-open state of the hello device; it holds nothing.
#[derive(Clone, Copy, Debug, PartialEq, Eq, Structural)]
pub struct HelloChrdev;

impl HelloChrdev {
    /// Opens the device; this never fails.
    pub fn open() -> (r: HelloChrdev) {
        HelloChrdev
    }

    /// Reads up to `requested` bytes of the message, starting at `offset`.
    ///
    /// At or beyond the end of the message the result is empty
    /// (end of stream); before it, the result is the next
    /// `min(requested, len - offset)` bytes of the message.
    pub fn read(&self, offset: u64, requested: usize) -> (r: Vec<u8>)
        ensures
            r@ == read_bytes(hello_msg(), offset as int, requested as int),
            r@.len() == read_len(hello_msg(), offset as int, requested as int),
            offset >= hello_msg().len() ==> r@.len() == 0,
            offset < hello_msg().len() ==> forall|i: int|
                0 <= i < r@.len() ==> #[trigger] r@[i] == hello_msg()[offset + i],
    {
        let msg = hello_message();
        let len = msg.len();
        if offset >= len as u64 {
            let r: Vec<u8> = Vec::new();
            assert(r@ =~= read_bytes(hello_msg(), offset as int, requested as int));
            return r;
        }
        let start = offset as usize;
        let avail = len - start;
        let count = if requested < avail { requested } else { avail };
        let mut r: Vec<u8> = Vec::new();
        let mut i: usize = start;
        while i < start + count
            invariant
                msg@ == hello_msg(),
                len == msg@.len(),
                start < len,
                count <= len - start,
                start <= i <= start + count,
                r@ =~= msg@.subrange(start as int, i as int),
            decreases start + count - i,
        {
            r.push(msg[i]);
            i = i + 1;
        }
        r
    }
}

} // verus!
