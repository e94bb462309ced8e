//! Scenarios for series extraction: coercion, filtering and order.

use plot_series::binary32::Binary32;
use plot_series::cell::RawCell;
use plot_series::series::{extract, Point};

fn b(x: f32) -> Binary32 {
    Binary32 { bits: x.to_bits() }
}

fn point(x: f32, y: f32) -> Point {
    Point { x: b(x), y: b(y) }
}

#[test]
fn short_row_contributes_nothing() {
    let rows = vec![vec![RawCell::Text("A".to_string())]];
    let series = extract(&rows, 0, 1);
    assert_eq!(series, Vec::<Point>::new());
}

#[test]
fn row_exactly_reaching_value_column_is_used() {
    let rows = vec![vec![RawCell::Float(b(1.0)), RawCell::Float(b(2.0))]];
    assert_eq!(extract(&rows, 0, 1), vec![point(1.0, 2.0)]);
    assert_eq!(extract(&rows, 0, 2), Vec::<Point>::new());
}

#[test]
fn empty_cells_row_is_dropped() {
    let rows = vec![vec![RawCell::Empty, RawCell::Empty]];
    assert_eq!(extract(&rows, 0, 1), Vec::<Point>::new());
}

#[test]
fn genuine_zero_zero_row_is_dropped() {
    let rows = vec![vec![RawCell::Integer(b(0.0)), RawCell::Float(b(0.0))]];
    assert_eq!(extract(&rows, 0, 1), Vec::<Point>::new());
}

#[test]
fn negative_zero_counts_as_zero() {
    let rows = vec![vec![RawCell::Float(b(-0.0)), RawCell::Float(b(0.0))]];
    assert_eq!(extract(&rows, 0, 1), Vec::<Point>::new());
}

#[test]
fn uncoercible_x_defaults_to_zero_and_row_is_kept() {
    let rows = vec![vec![RawCell::Text("foo".to_string()), RawCell::Float(b(3.5))]];
    assert_eq!(extract(&rows, 0, 1), vec![point(0.0, 3.5)]);
}

#[test]
fn boolean_and_error_cells_have_no_numeric_value() {
    let rows = vec![
        vec![RawCell::Boolean(true), RawCell::Float(b(1.5))],
        vec![RawCell::Error, RawCell::Float(b(2.5))],
        vec![RawCell::DateTimeText("2024-06-01".to_string()), RawCell::Float(b(4.5))],
        vec![RawCell::DurationText("PT1H".to_string()), RawCell::Float(b(5.5))],
    ];
    assert_eq!(
        extract(&rows, 0, 1),
        vec![point(0.0, 1.5), point(0.0, 2.5), point(0.0, 4.5), point(0.0, 5.5)]
    );
}

#[test]
fn datetime_serial_becomes_x() {
    let rows = vec![vec![RawCell::DateTime(b(45000.5)), RawCell::Float(b(7.0))]];
    assert_eq!(extract(&rows, 0, 1), vec![point(45000.5, 7.0)]);
}

#[test]
fn name_column_past_row_end_defaults_to_zero() {
    let rows = vec![vec![RawCell::Float(b(9.0))]];
    assert_eq!(extract(&rows, 3, 0), vec![point(0.0, 9.0)]);
}

#[test]
fn output_keeps_row_order() {
    let rows = vec![
        vec![RawCell::Integer(b(3.0)), RawCell::Float(b(30.0))],
        vec![RawCell::Empty, RawCell::Empty],
        vec![RawCell::Integer(b(1.0)), RawCell::Float(b(10.0))],
        vec![RawCell::Integer(b(2.0))],
        vec![RawCell::Integer(b(2.0)), RawCell::Float(b(20.0))],
    ];
    assert_eq!(
        extract(&rows, 0, 1),
        vec![point(3.0, 30.0), point(1.0, 10.0), point(2.0, 20.0)]
    );
}

#[test]
fn extraction_is_pure() {
    let rows = vec![
        vec![RawCell::DateTime(b(45000.5)), RawCell::Float(b(7.0))],
        vec![RawCell::Text("foo".to_string()), RawCell::Float(b(3.5))],
    ];
    let first = extract(&rows, 0, 1);
    let second = extract(&rows, 0, 1);
    assert_eq!(first, second);
}
