//! The two-wire bus the device hangs on, and a record of what was said over it.
use vstd::prelude::*;

verus! {

/// 7-bit bus address of the device.
pub const DEVICE_ADDRESS: u8 = 0x0D;

/// A blocking two-wire bus with 7-bit addressing.
///
/// A platform supplies this; its failures are opaque values of `Error`.
pub trait Bus {
    type Error;

    /// Writes `bytes` to the device at `address` in one transaction.
    fn write(&mut self, address: u8, bytes: &[u8]) -> Result<(), Self::Error>;

    /// Writes `bytes` to the device at `address`, then reads enough bytes to
    /// fill `read`, in one transaction. (A slice cannot change its length, so
    /// every implementation meets the contract.)
    fn write_read(&mut self, address: u8, bytes: &[u8], read: &mut [u8]) -> (r: Result<
        (),
        Self::Error,
    >)
        ensures
            final(read)@.len() == old(read)@.len(),
    ;
}

/// One bus transaction the driver issued, and whether the bus accepted it.
pub enum Transfer {
    /// A write of `bytes`.
    Write { address: u8, bytes: Seq<u8>, ok: bool },
    /// A write of `bytes` followed by a read that left `read` in the buffer.
    WriteRead { address: u8, bytes: Seq<u8>, read: Seq<u8>, ok: bool },
}

/// A write of `value` to the register at `reg`.
pub open spec fn register_write(reg: u8, value: u8, ok: bool) -> Transfer {
    Transfer::Write { address: DEVICE_ADDRESS, bytes: seq![reg, value], ok }
}

/// A read of `read.len()` bytes starting at the register at `reg`.
pub open spec fn register_read(reg: u8, read: Seq<u8>, ok: bool) -> Transfer {
    Transfer::WriteRead { address: DEVICE_ADDRESS, bytes: seq![reg], read, ok }
}

/// The bytes the last transfer of `h` read.
pub open spec fn received(h: Seq<Transfer>) -> Seq<u8> {
    match h.last() {
        Transfer::WriteRead { read, .. } => read,
        Transfer::Write { .. } => Seq::empty(),
    }
}

/// `after` is `before` followed by the register writes `w`, issued in order
/// and stopped at the first one the bus refused; `done` says all were accepted.
pub open spec fn wrote_in_order(
    before: Seq<Transfer>,
    after: Seq<Transfer>,
    w: Seq<(u8, u8)>,
    done: bool,
) -> bool {
    let n = after.len() - before.len();
    &&& before.len() < after.len() <= before.len() + w.len()
    &&& after.subrange(0, before.len() as int) == before
    &&& forall|i: int|
        0 <= i < n ==> #[trigger] after[before.len() + i] == register_write(
            w[i].0,
            w[i].1,
            if i < n - 1 {
                true
            } else {
                done
            },
        )
    &&& n < w.len() ==> !done
}

} // verus!
