//! Extraction of a numeric plot series from spreadsheet-style rows of typed
//! cells, together with the axis bounds of such a series and the state
//! machine that sequences a fetch-parse-extract-render pipeline.
//!
//! Chart data is carried at 32-bit floating-point precision. Verified code
//! cannot compute with floating-point values, so the library handles each
//! value as its IEEE-754 binary32 bit pattern ([`binary32::Binary32`]) and
//! states zero tests and ordering over those patterns; callers convert
//! between machine floats and bit patterns at the boundary.

pub mod binary32;

pub mod cell;

pub mod series;

pub mod bounds;

pub mod pipeline;
