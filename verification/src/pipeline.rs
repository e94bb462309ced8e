//! The forward-only state machine that sequences one plot request.
//!
//! A request runs as a strict pipeline: fetch the spreadsheet bytes, parse
//! the worksheet into rows, extract the series, render it. The stages that
//! touch the outside world (fetching, parsing, rendering) are the driver's
//! job; this module owns the decisions between them. The driver performs the
//! returned [`PlotAction`], hands the outcome back as the next
//! [`PlotEvent`], and keeps no other plot state of its own, so no stage can
//! read results before the stage producing them has finished. Apart from a
//! fresh request, which restarts the pipeline, every event moves the state
//! forward or leaves it in place.

use vstd::prelude::*;

use crate::cell::RawRow;
use crate::series::{extract, extract_spec, rows_view, Series};

verus! {

/// Where a plot request stands.
#[derive(Clone, Debug, PartialEq)]
pub enum PlotState {
    /// No request is underway.
    Idle,
    /// The spreadsheet bytes are being fetched.
    Fetching { name_col: usize, value_col: usize },
    /// The fetched bytes are being parsed into worksheet rows.
    Parsing { name_col: usize, value_col: usize },
    /// The series was extracted and can be rendered.
    Ready { series: Series },
    /// Fetching or parsing failed; the message says why.
    Failed { message: String },
}

/// What the driver reports to the state machine.
#[derive(Clone, Debug, PartialEq)]
pub enum PlotEvent {
    /// The user asked to plot the columns at these indices.
    Requested { name_col: usize, value_col: usize },
    /// The spreadsheet bytes arrived.
    FetchSucceeded,
    /// The fetch failed.
    FetchFailed { message: String },
    /// The worksheet was parsed into rows.
    ParseSucceeded { rows: Vec<RawRow> },
    /// The bytes could not be parsed, or the worksheet was missing.
    ParseFailed { message: String },
}

/// What the driver must do next.
#[derive(Clone, Debug, PartialEq)]
pub enum PlotAction {
    /// Fetch the spreadsheet bytes.
    StartFetch,
    /// Parse the fetched bytes into worksheet rows.
    ParseWorkbook,
    /// Render the series held by the new state.
    RenderSeries,
    /// Surface the failure message held by the new state.
    ReportFailure,
    /// Do nothing: the event does not belong to the current stage.
    Ignore,
}

/// How far along the pipeline a state is. Success and failure are both
/// final.
pub open spec fn rank(state: PlotState) -> int {
    match state {
        PlotState::Idle => 0,
        PlotState::Fetching { .. } => 1,
        PlotState::Parsing { .. } => 2,
        PlotState::Ready { .. } => 3,
        PlotState::Failed { .. } => 3,
    }
}

/// The transition table of the pipeline. A request (re)starts it; each
/// outcome event advances exactly the stage that awaits it and is ignored in
/// any other stage; parsed rows are turned into the extracted series on the
/// spot.
pub open spec fn transition(
    state: PlotState,
    event: PlotEvent,
    next: PlotState,
    action: PlotAction,
) -> bool {
    match event {
        PlotEvent::Requested { name_col, value_col } => {
            &&& next == (PlotState::Fetching { name_col, value_col })
            &&& action == PlotAction::StartFetch
        },
        PlotEvent::FetchSucceeded => match state {
            PlotState::Fetching { name_col, value_col } => {
                &&& next == (PlotState::Parsing { name_col, value_col })
                &&& action == PlotAction::ParseWorkbook
            },
            _ => next == state && action == PlotAction::Ignore,
        },
        PlotEvent::FetchFailed { message } => match state {
            PlotState::Fetching { .. } => {
                &&& next == (PlotState::Failed { message })
                &&& action == PlotAction::ReportFailure
            },
            _ => next == state && action == PlotAction::Ignore,
        },
        PlotEvent::ParseSucceeded { rows } => match state {
            PlotState::Parsing { name_col, value_col } => {
                &&& next matches PlotState::Ready { series } && series@ == extract_spec(
                    rows_view(rows@),
                    name_col as int,
                    value_col as int,
                )
                &&& action == PlotAction::RenderSeries
            },
            _ => next == state && action == PlotAction::Ignore,
        },
        PlotEvent::ParseFailed { message } => match state {
            PlotState::Parsing { .. } => {
                &&& next == (PlotState::Failed { message })
                &&& action == PlotAction::ReportFailure
            },
            _ => next == state && action == PlotAction::Ignore,
        },
    }
}

/// Advances the pipeline by one event and says what the driver must do
/// next, exactly as the [`transition`] table prescribes.
pub fn step(state: PlotState, event: PlotEvent) -> (r: (PlotState, PlotAction))
    ensures
        transition(state, event, r.0, r.1),
{
    match event {
        PlotEvent::Requested { name_col, value_col } => (
            PlotState::Fetching { name_col, value_col },
            PlotAction::StartFetch,
        ),
        PlotEvent::FetchSucceeded => match state {
            PlotState::Fetching { name_col, value_col } => (
                PlotState::Parsing { name_col, value_col },
                PlotAction::ParseWorkbook,
            ),
            other => (other, PlotAction::Ignore),
        },
        PlotEvent::FetchFailed { message } => match state {
            PlotState::Fetching { .. } => (PlotState::Failed { message }, PlotAction::ReportFailure),
            other => (other, PlotAction::Ignore),
        },
        PlotEvent::ParseSucceeded { rows } => match state {
            PlotState::Parsing { name_col, value_col } => {
                let series = extract(&rows, name_col, value_col);
                (PlotState::Ready { series }, PlotAction::RenderSeries)
            },
            other => (other, PlotAction::Ignore),
        },
        PlotEvent::ParseFailed { message } => match state {
            PlotState::Parsing { .. } => (PlotState::Failed { message }, PlotAction::ReportFailure),
            other => (other, PlotAction::Ignore),
        },
    }
}

/// Except for a fresh request, no transition moves the pipeline backward: a
/// fetch or parse outcome either advances the awaiting stage or changes
/// nothing.
pub proof fn lemma_transition_forward_only(
    state: PlotState,
    event: PlotEvent,
    next: PlotState,
    action: PlotAction,
)
    requires
        transition(state, event, next, action),
        !(event matches PlotEvent::Requested { .. }),
    ensures
        rank(next) >= rank(state),
{
}

} // verus!
