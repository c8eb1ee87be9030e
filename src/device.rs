//! The kinds of device a registration binds, and how a file operation
//! reaches the handler of a kind.

use vstd::prelude::*;
use crate::hello::{hello_msg, read_bytes, HelloChrdev};
use crate::null::Nulldev;

verus! {

/// The handler type bound to a device node.
#[derive(Clone, Copy, Debug, PartialEq, Eq, Structural)]
pub enum DeviceKind {
    Hello,
    Null,
}

/// What a read on a device of `kind` hands out.
pub open spec fn read_spec(kind: DeviceKind, offset: int, requested: int) -> Seq<u8> {
    match kind {
        DeviceKind::Hello => read_bytes(hello_msg(), offset, requested),
        DeviceKind::Null => Seq::empty(),
    }
}

/// What a write of `data` on a device of `kind` reports: the number of
/// bytes consumed, or `None` where the device takes no writes.
pub open spec fn write_spec(kind: DeviceKind, data: Seq<u8>) -> Option<nat> {
    match kind {
        DeviceKind::Hello => None,
        DeviceKind::Null => Some(data.len()),
    }
}

/// Runs a read on a freshly opened handle of `kind`.
pub fn dispatch_read(kind: DeviceKind, offset: u64, requested: usize) -> (r: Vec<u8>)
    ensures
        r@ == read_spec(kind, offset as int, requested as int),
{
    match kind {
        DeviceKind::Hello => HelloChrdev::open().read(offset, requested),
        DeviceKind::Null => Nulldev::open().read(offset, requested),
    }
}

/// Runs a write on a freshly opened handle of `kind`; `None` where the
/// device has no write operation.
pub fn dispatch_write(kind: DeviceKind, data: &[u8], offset: u64) -> (r: Option<usize>)
    ensures
        r matches Some(n) ==> write_spec(kind, data@) == Some(n as nat),
        r is None <==> write_spec(kind, data@) is None,
{
    match kind {
        DeviceKind::Hello => None,
        DeviceKind::Null => Some(Nulldev::open().write(data, offset)),
    }
}

/// A write on the null device consumes exactly its data, and the reads on
/// either side of it, at any offsets and lengths, are the same: empty.
pub proof fn lemma_null_write_unobservable(data: Seq<u8>, before: (int, int), after: (int, int))
    ensures
        write_spec(DeviceKind::Null, data) == Some(data.len()),
        read_spec(DeviceKind::Null, before.0, before.1) == Seq::<u8>::empty(),
        read_spec(DeviceKind::Null, after.0, after.1) == read_spec(DeviceKind::Null, before.0, before.1),
{
}

} // verus!
