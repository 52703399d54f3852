//! The shared contract every protocol unit satisfies: a unit knows its exact
//! wire bytes (`wire`), can append them to a byte sink (`encode`), and can
//! report their count (`len`).  Decoding is unit-specific and lives with each
//! type; every decode failure is one of the variants of [`DecodeError`].

use vstd::prelude::*;

verus! {

/// Why a decode call failed.
#[derive(Clone, Copy, Debug, PartialEq, Eq, Structural)]
pub enum DecodeError {
    /// The input ended before the bytes a header field announced; nothing is
    /// read past the end of the input.
    Truncated,
    /// The input is recognized but names a decode path this crate does not
    /// build yet (network-layer control-message content).
    Unimplemented,
}

/// A protocol unit that can be written to the wire.
///
/// `wire` is the mathematical byte sequence of the unit; `encode` appends
/// exactly those bytes to the sink, and `len` returns exactly their count.
/// The two executable operations are pinned to the same `wire` sequence, so
/// they can never diverge.
pub trait Encode {
    /// The exact bytes this unit puts on the wire.
    spec fn wire(&self) -> Seq<u8>;

    /// When the unit can be written faithfully (for the envelope: each
    /// address fits its one-byte length prefix).
    spec fn encodable(&self) -> bool;

    /// Appends the unit's wire bytes to `buf`.
    fn encode(&self, buf: &mut Vec<u8>)
        requires
            self.encodable(),
        ensures
            final(buf)@ == old(buf)@ + self.wire(),
    ;

    /// The number of bytes the next `encode` call would append.
    fn len(&self) -> (n: usize)
        requires
            self.encodable(),
            self.wire().len() <= usize::MAX,
        ensures
            n == self.wire().len(),
    ;
}

} // verus!
