//! Transport core for a headset that multiplexes many features over one
//! report pipe: frames, the correlation table, the listener's routing and
//! the request engine, all as logic free of I/O.

use vstd::prelude::*;

pub mod battery;
pub mod buttons;
pub mod codec;
pub mod engine;
pub mod frame;
pub mod listener;
pub mod system;
pub mod table;
pub mod watch;

verus! {

/// A value that can be written as bytes for the device.
pub trait AsBytes {
    /// The bytes that stand for the value.
    spec fn bytes(&self) -> Seq<u8>;

    /// The value as bytes.
    fn as_bytes(&self) -> (out: Vec<u8>)
        ensures
            out@ == self.bytes(),
    ;
}

/// A value that can be read from bytes of the device.
pub trait FromBytes: Sized {
    /// How many leading bytes the value is read from.
    spec fn needed() -> nat;

    /// The value that the bytes stand for.
    spec fn decoded(bytes: Seq<u8>) -> Self;

    /// Reads the value from the front of `bytes`.
    fn from_bytes(bytes: &[u8]) -> (out: Self)
        requires
            bytes@.len() >= Self::needed(),
        ensures
            out == Self::decoded(bytes@),
    ;
}

} // verus!
