//! The typed spreadsheet cells that extraction consumes.
//!
//! A worksheet hands the extractor rows of tagged cells. Only integer, float
//! and date-time cells carry a numeric value; every other tag coerces to
//! "no value". Numeric payloads are carried as binary32 bit patterns
//! ([`Binary32`]): an integer cell holds its value converted to binary32, a
//! float cell holds its value narrowed to binary32, and a date-time cell
//! holds the spreadsheet's serial encoding (days since the epoch, with
//! fractional time of day) as binary32. The loader performs those
//! conversions before the rows reach this library.

use vstd::prelude::*;

use crate::binary32::Binary32;

verus! {

/// A tagged value from a spreadsheet cell.
#[derive(Clone, Debug, PartialEq)]
pub enum RawCell {
    /// A signed-integer cell; its value as binary32.
    Integer(Binary32),
    /// A floating-point cell; its value as binary32.
    Float(Binary32),
    /// A text cell.
    Text(String),
    /// A boolean cell.
    Boolean(bool),
    /// A date or time cell; its serial number as binary32.
    DateTime(Binary32),
    /// A date, time or date-time cell kept in textual (ISO 8601) form.
    DateTimeText(String),
    /// A duration cell kept in textual (ISO 8601) form.
    DurationText(String),
    /// A cell holding a spreadsheet error marker.
    Error,
    /// A structurally present but empty cell.
    Empty,
}

/// One worksheet row: an ordered sequence of cells, indexed by column
/// position. A row may have fewer columns than the largest column index a
/// caller refers to.
pub type RawRow = Vec<RawCell>;

impl RawCell {
    /// The numeric value a cell carries: integer, float and date-time cells
    /// yield their payload; text, boolean, textual date or duration, error
    /// and empty cells yield none.
    pub open spec fn spec_numeric_value(self) -> Option<Binary32> {
        match self {
            RawCell::Integer(v) => Some(v),
            RawCell::Float(v) => Some(v),
            RawCell::DateTime(v) => Some(v),
            _ => None,
        }
    }

    /// Reads the numeric value of the cell, if it has one.
    pub fn numeric_value(&self) -> (r: Option<Binary32>)
        ensures
            r == self.spec_numeric_value(),
    {
        match self {
            RawCell::Integer(v) => Some(*v),
            RawCell::Float(v) => Some(*v),
            RawCell::DateTime(v) => Some(*v),
            _ => None,
        }
    }
}

} // verus!
