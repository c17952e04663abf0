//! The scalar types and status codes of the co-simulation interface.
use vstd::prelude::*;

verus! {

/// A truth value at the interface: `fmi2True` or `fmi2False`.
pub type fmi2Boolean = i32;

/// An integer value at the interface.
pub type fmi2Integer = i32;

/// A real value at the interface, as the bit pattern of an IEEE 754 double.
pub type fmi2Real = u64;

/// The numeric address of a variable at the interface.
pub type fmi2ValueReference = u32;

/// The outcome of a call at the interface.
pub type fmi2Status = u32;

/// The kind of plugin a host asks for.
pub type fmi2Type = u32;

/// The kind of status a host asks about.
pub type fmi2StatusKind = u32;

/// One byte of a serialized plugin state.
pub type fmi2Byte = i8;

pub const fmi2True: fmi2Boolean = 1;

pub const fmi2False: fmi2Boolean = 0;

/// The call did what it was asked to do.
pub const fmi2Status_fmi2OK: fmi2Status = 0;

/// The call failed; the instance can still be used.
pub const fmi2Status_fmi2Error: fmi2Status = 3;

pub const fmi2Type_fmi2ModelExchange: fmi2Type = 0;

pub const fmi2Type_fmi2CoSimulation: fmi2Type = 1;

} // verus!
