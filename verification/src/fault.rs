//! The fatal faults the machine can raise.

use vstd::prelude::*;

verus! {

/// An unrecoverable fault: it signals a malformed program or a misused
/// engine, and execution must not continue past it.
#[derive(Clone, Copy, Debug, PartialEq, Eq, Structural)]
pub enum Fault {
    /// A memory or register access whose address or index falls outside the
    /// valid range of the buffer it addresses.
    AddressOutOfRange,
    /// A fetched opcode byte that matches no entry of the instruction table.
    UnknownOpcode,
}

} // verus!
