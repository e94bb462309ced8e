//! Scenarios for the plot pipeline state machine.

use plot_series::binary32::Binary32;
use plot_series::cell::RawCell;
use plot_series::pipeline::{step, PlotAction, PlotEvent, PlotState};
use plot_series::series::Point;

fn b(x: f32) -> Binary32 {
    Binary32 { bits: x.to_bits() }
}

#[test]
fn happy_path_reaches_ready() {
    let (state, action) = step(
        PlotState::Idle,
        PlotEvent::Requested { name_col: 0, value_col: 1 },
    );
    assert_eq!(action, PlotAction::StartFetch);
    assert_eq!(state, PlotState::Fetching { name_col: 0, value_col: 1 });

    let (state, action) = step(state, PlotEvent::FetchSucceeded);
    assert_eq!(action, PlotAction::ParseWorkbook);
    assert_eq!(state, PlotState::Parsing { name_col: 0, value_col: 1 });

    let rows = vec![vec![RawCell::Integer(b(1.0)), RawCell::Float(b(2.0))]];
    let (state, action) = step(state, PlotEvent::ParseSucceeded { rows });
    assert_eq!(action, PlotAction::RenderSeries);
    assert_eq!(
        state,
        PlotState::Ready { series: vec![Point { x: b(1.0), y: b(2.0) }] }
    );
}

#[test]
fn fetch_failure_reports() {
    let state = PlotState::Fetching { name_col: 0, value_col: 2 };
    let (state, action) = step(state, PlotEvent::FetchFailed { message: "unreachable".to_string() });
    assert_eq!(action, PlotAction::ReportFailure);
    assert_eq!(state, PlotState::Failed { message: "unreachable".to_string() });
}

#[test]
fn parse_failure_reports() {
    let state = PlotState::Parsing { name_col: 0, value_col: 2 };
    let (state, action) = step(state, PlotEvent::ParseFailed { message: "no such sheet".to_string() });
    assert_eq!(action, PlotAction::ReportFailure);
    assert_eq!(state, PlotState::Failed { message: "no such sheet".to_string() });
}

#[test]
fn stray_outcome_events_are_ignored() {
    let (state, action) = step(PlotState::Idle, PlotEvent::FetchSucceeded);
    assert_eq!(action, PlotAction::Ignore);
    assert_eq!(state, PlotState::Idle);

    let (state, action) = step(
        PlotState::Fetching { name_col: 0, value_col: 1 },
        PlotEvent::ParseSucceeded { rows: Vec::new() },
    );
    assert_eq!(action, PlotAction::Ignore);
    assert_eq!(state, PlotState::Fetching { name_col: 0, value_col: 1 });
}

#[test]
fn new_request_restarts_after_failure() {
    let state = PlotState::Failed { message: "unreachable".to_string() };
    let (state, action) = step(state, PlotEvent::Requested { name_col: 0, value_col: 3 });
    assert_eq!(action, PlotAction::StartFetch);
    assert_eq!(state, PlotState::Fetching { name_col: 0, value_col: 3 });
}
