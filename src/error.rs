use vstd::prelude::*;

verus! {

/// What can go wrong while scanning a tick series.
#[derive(Clone, Copy, Debug, PartialEq, Eq, Structural)]
pub enum ScanError {
    /// The native source handed back no handle for the symbol.
    OpenFailed,
    /// The native fill call returned this negative fault code.
    NativeFault { code: i32 },
    /// The native side reported more rows than the transfer buffer holds.
    CapacityExceeded { rows: u32 },
    /// The symbol holds a NUL byte and cannot cross the native boundary.
    InvalidSymbol,
    /// A leaf operator was handed this many children.
    UnexpectedChildren { count: usize },
}

} // verus!
