use vstd::prelude::*;

verus! {

/// The message kind whose payload was being decoded when a length check
/// failed; carried by [`Error::InvalidDataLength`].
#[derive(Clone, Copy, Debug, PartialEq, Eq, Structural)]
pub enum FrameKind {
    NmtNodeControl,
    Emergency,
    Sdo,
    NmtNodeMonitoring,
}

/// Every failure the codecs can report.  All variants are terminal at the
/// point raised: they propagate to the immediate caller and nothing is
/// retried internally.
#[derive(Clone, Copy, Debug, PartialEq, Eq, Structural)]
pub enum Error {
    /// The node byte has the reserved high bit (0x80) set.
    InvalidNodeId(u8),
    /// The 11-bit identifier matches no known communication-object band or
    /// slot, or has bits beyond the low 11 set.
    InvalidCobId(u16),
    /// Unrecognized network-management control command byte.
    InvalidNmtCommand(u8),
    /// Unrecognized heartbeat state byte.
    InvalidNmtState(u8),
    /// A payload shorter (or, for fixed-size kinds, longer) than the message
    /// kind requires.
    InvalidDataLength { length: usize, kind: FrameKind },
    /// Unrecognized SDO command-specifier value in the server direction.
    InvalidCommandSpecifier(u8),
    /// Unrecognized SDO command-specifier value in the client direction.
    InvalidClientCommandSpecifier(u8),
    /// An extended (29-bit) identifier was observed; only standard 11-bit
    /// identifiers are supported.
    CanFdNotSupported,
    /// The message classifies to a known communication object whose body this
    /// codec does not interpret, or to an SDO command it does not handle.
    NotImplemented,
}

/// The abstraction of a fallible result: the success value replaced by
/// its mathematical view, the error carried through unchanged.
pub open spec fn result_view<T: View>(r: Result<T, Error>) -> Result<T::V, Error> {
    match r {
        Ok(t) => Ok(t@),
        Err(e) => Err(e),
    }
}

} // verus!
