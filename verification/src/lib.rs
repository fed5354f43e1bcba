//! Strided reductions over slices: summing or multiplying the elements
//! found at indices `0, step, 2 * step, ...` of a slice, for any element
//! type that has a zero value and in-place addition and multiplication.
//!
//! The reductions cannot overflow: each operation requires that every
//! partial result stays within the element type's range, so no call ever
//! panics or wraps.

pub mod numeric;
pub mod ops;
