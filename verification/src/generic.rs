//! Wire types shared by several packet kinds: the raw-float carrier, the
//! per-wheel quadruple, and the marshalling flag table.

use vstd::prelude::*;

use crate::error::UnpackError;

verus! {

/// A 32-bit IEEE-754 value carried as its raw little-endian bit pattern.
///
/// The decoder never does float arithmetic; it moves the bits through
/// unchanged, so a re-encoded field reproduces the original bytes exactly.
/// A consumer that wants the numeric value reinterprets the bits outside
/// the library.
#[derive(Debug, Clone, Copy, PartialEq, Eq, Structural)]
pub struct RawFloat {
    pub bits: u32,
}

/// One value per wheel, in wire order: rear left, rear right, front left,
/// front right.
#[derive(Debug, Clone, Copy, PartialEq, Eq, Structural)]
pub struct WheelData<T> {
    pub rear_left: T,
    pub rear_right: T,
    pub front_left: T,
    pub front_right: T,
}

impl<T> WheelData<T> {
    pub fn new(rear_left: T, rear_right: T, front_left: T, front_right: T) -> (r: WheelData<T>)
        ensures
            r.rear_left == rear_left,
            r.rear_right == rear_right,
            r.front_left == front_left,
            r.front_right == front_right,
    {
        WheelData { rear_left, rear_right, front_left, front_right }
    }
}

/// Marshalling flag shown to a car. The wire codes this as a signed byte
/// with `-1` as the "unknown" sentinel, kept as its own variant.
#[derive(Debug, Clone, Copy, PartialEq, Eq, Structural)]
pub enum Flag {
    Invalid,
    NoFlag,
    Green,
    Blue,
    Yellow,
    Red,
}

impl Flag {
    /// The closed code table for flags: `-1` unknown/invalid, `0` no flag,
    /// `1` green, `2` blue, `3` yellow, `4` red.
    pub open spec fn spec_try_from(value: i8) -> Result<Flag, UnpackError> {
        match value {
            -1i8 => Ok(Flag::Invalid),
            0i8 => Ok(Flag::NoFlag),
            1i8 => Ok(Flag::Green),
            2i8 => Ok(Flag::Blue),
            3i8 => Ok(Flag::Yellow),
            4i8 => Ok(Flag::Red),
            _ => Err(UnpackError::InvalidCode((value as u8) as u32)),
        }
    }

    pub fn try_from(value: i8) -> (r: Result<Flag, UnpackError>)
        ensures
            r == Flag::spec_try_from(value),
    {
        match value {
            -1i8 => Ok(Flag::Invalid),
            0i8 => Ok(Flag::NoFlag),
            1i8 => Ok(Flag::Green),
            2i8 => Ok(Flag::Blue),
            3i8 => Ok(Flag::Yellow),
            4i8 => Ok(Flag::Red),
            _ => Err(UnpackError::InvalidCode((value as u8) as u32)),
        }
    }
}

} // verus!
