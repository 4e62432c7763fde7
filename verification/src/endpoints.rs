//! The request that asks for an interval to be fetched again, and the order
//! of the work that it sets off. The caller does the work and reports how
//! each step ended; what comes next is decided here.

use vstd::prelude::*;
use crate::auth::needs_token;
use crate::portal::STATUS_OK;

verus! {

/// The status of a reply to a request that failed.
pub const STATUS_INTERNAL_SERVER_ERROR: u16 = 500;

/// The body of the reply to a request that was carried out.
pub const BODY_OK: &'static str = "ok";

/// The body of the reply to a request for which no access token could be
/// had.
pub const BODY_NO_TOKEN: &'static str =
    "Error \"Logging {} - {} failed because of accessToken\"";

/// The body of a request to fetch an interval again.
#[derive(Debug)]
pub struct TimeParams {
    /// The local time at which the interval starts.
    pub start: String,
    /// The local time at which the interval stops.
    pub stop: String,
    /// The resolution to fetch at.
    pub resolution: String,
}

/// A step of the work that a request sets off.
#[derive(Clone, Copy, Debug, PartialEq, Eq, Structural)]
pub enum UpdateStep {
    /// An access token is requested.
    Token,
    /// The consumption of the interval is fetched and stored.
    Consumption,
    /// The production of the interval is fetched and stored.
    Production,
    /// The aggregates over consumption are refreshed.
    ConsumptionViews,
    /// The aggregates over production are refreshed.
    ProductionViews,
}

/// What the caller does next.
#[derive(Debug)]
pub enum UpdateAction {
    /// Carry out this step and report how it ended.
    Run(UpdateStep),
    /// Reply with this status and body; the request is done.
    Respond { status: u16, body: String },
}

/// What an [`UpdateAction`] holds, with its text as a sequence of
/// characters.
pub enum UpdateActionView {
    Run(UpdateStep),
    Respond { status: u16, body: Seq<char> },
}

impl View for UpdateAction {
    type V = UpdateActionView;

    open spec fn view(&self) -> UpdateActionView {
        match self {
            UpdateAction::Run(step) => UpdateActionView::Run(*step),
            UpdateAction::Respond { status, body } => UpdateActionView::Respond {
                status: *status,
                body: body@,
            },
        }
    }
}

/// The step after `step`, none after the last.
pub open spec fn step_after(step: UpdateStep) -> Option<UpdateStep> {
    match step {
        UpdateStep::Token => Some(UpdateStep::Consumption),
        UpdateStep::Consumption => Some(UpdateStep::Production),
        UpdateStep::Production => Some(UpdateStep::ConsumptionViews),
        UpdateStep::ConsumptionViews => Some(UpdateStep::ProductionViews),
        UpdateStep::ProductionViews => None,
    }
}

/// What follows the step `step` that ended with the failure `failure`, or
/// without one: after a failure the reply that reports it, which for the
/// token is a fixed text; else the next step, and after the last step the
/// reply that all went well.
pub open spec fn action_after(step: UpdateStep, failure: Option<Seq<char>>) -> UpdateActionView {
    match failure {
        Some(message) => UpdateActionView::Respond {
            status: STATUS_INTERNAL_SERVER_ERROR,
            body: if step == UpdateStep::Token {
                BODY_NO_TOKEN@
            } else {
                message
            },
        },
        None => match step_after(step) {
            Some(next) => UpdateActionView::Run(next),
            None => UpdateActionView::Respond { status: STATUS_OK, body: BODY_OK@ },
        },
    }
}

impl TimeParams {
    /// The request for the interval from `start` to `stop` at `resolution`,
    /// and at the default resolution where none is named.
    pub fn new(start: &str, stop: &str, resolution: Option<&str>) -> (params: TimeParams)
        ensures
            params.start@ == start@,
            params.stop@ == stop@,
            params.resolution@ == (match resolution {
                Some(name) => name@,
                None => "PT1H"@,
            }),
    {
        TimeParams {
            start: start.to_owned(),
            stop: stop.to_owned(),
            resolution: match resolution {
                Some(name) => name.to_owned(),
                None => crate::resolution::default_resolution(),
            },
        }
    }
}

/// The first thing to do for a request: to request a token where a user is
/// configured, else to fetch consumption with the configured token.
pub fn first_action(username: &str) -> (action: UpdateAction)
    ensures
        action@ == UpdateActionView::Run(
            if username@.len() != 0 {
                UpdateStep::Token
            } else {
                UpdateStep::Consumption
            },
        ),
{
    if needs_token(username) {
        UpdateAction::Run(UpdateStep::Token)
    } else {
        UpdateAction::Run(UpdateStep::Consumption)
    }
}

/// What to do after the step `step`, which ended with the failure
/// `failure` or, where that is `None`, went well. A token request that
/// brought no token counts as failed.
pub fn next_action(step: UpdateStep, failure: Option<String>) -> (action: UpdateAction)
    ensures
        action@ == action_after(
            step,
            match failure {
                Some(message) => Some(message@),
                None => None,
            },
        ),
{
    match failure {
        Some(message) => {
            let body: String = match step {
                UpdateStep::Token => BODY_NO_TOKEN.to_owned(),
                _ => message,
            };
            UpdateAction::Respond { status: STATUS_INTERNAL_SERVER_ERROR, body }
        },
        None => match step {
            UpdateStep::Token => UpdateAction::Run(UpdateStep::Consumption),
            UpdateStep::Consumption => UpdateAction::Run(UpdateStep::Production),
            UpdateStep::Production => UpdateAction::Run(UpdateStep::ConsumptionViews),
            UpdateStep::ConsumptionViews => UpdateAction::Run(UpdateStep::ProductionViews),
            UpdateStep::ProductionViews => UpdateAction::Respond {
                status: STATUS_OK,
                body: BODY_OK.to_owned(),
            },
        },
    }
}

/// Whatever happens, a request is answered after at most five steps, and
/// it is answered with success only after the last of them went well.
pub proof fn lemma_steps_end(step: UpdateStep, failure: Option<Seq<char>>)
    ensures
        step_rank(step) < 5,
        action_after(step, failure) matches UpdateActionView::Run(next) ==> step_rank(next)
            == step_rank(step) + 1 && failure is None,
        action_after(step, failure) matches UpdateActionView::Respond { status, .. } ==> (status
            == STATUS_OK <==> failure is None && step == UpdateStep::ProductionViews),
{
}

/// The place of a step in the order of the work.
pub open spec fn step_rank(step: UpdateStep) -> nat {
    match step {
        UpdateStep::Token => 0,
        UpdateStep::Consumption => 1,
        UpdateStep::Production => 2,
        UpdateStep::ConsumptionViews => 3,
        UpdateStep::ProductionViews => 4,
    }
}

} // verus!
