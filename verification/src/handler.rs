//! The course of one invocation.
//!
//! An invocation is a short chain of steps. Each function here makes one
//! decision of the chain: it takes what the caller brought back from the
//! previous step and names the next one. The chain ends with
//! [`Step::Complete`] or [`Step::Fail`]; the caller performs every other step
//! and reports its outcome to the function that the step names.

use vstd::prelude::*;
use crate::calendar::{
    current_time_window, is_window_of_clock_day, CalendarDate, DateInterval, DateIntervalView,
};
use crate::error::{BridgeError, BridgeErrorView, ResponseField};
use crate::event::{Event, EventView};
use crate::metric::{build_metric_input, metric_input_for, Percentage, PutMetricInput, PutMetricInputView};
use crate::query::{build_query, metric_kind, query_for, requested_kind, MetricKind, ReservationQuery, ReservationQueryView};
use crate::response::{
    coverage_buckets_of, coverage_percentage, coverage_reading, utilization_buckets_of,
    utilization_percentage, utilization_reading, CoverageBucket, CoverageBucketView,
    UtilizationBucket, UtilizationBucketView,
};

verus! {

/// The region in which the cost-reporting service is hosted. It serves every
/// deployment from there.
pub const COST_REPORTING_REGION: &'static str = "us-east-1";

/// Where a service is reached.
#[derive(Clone, Debug, PartialEq, Eq)]
pub enum Endpoint {
    /// In one region, wherever the caller runs.
    Pinned { region: String },
    /// In the region that the caller's environment is configured with.
    Deployment,
}

/// What an [`Endpoint`] holds.
pub ghost enum EndpointView {
    Pinned { region: Seq<char> },
    Deployment,
}

impl View for Endpoint {
    type V = EndpointView;

    open spec fn view(&self) -> EndpointView {
        match *self {
            Endpoint::Pinned { region } => EndpointView::Pinned { region: region@ },
            Endpoint::Deployment => EndpointView::Deployment,
        }
    }
}

/// How an invocation ended well.
#[derive(Clone, Debug, PartialEq, Eq)]
pub enum Outcome {
    /// The reply held no time bucket: there was nothing to publish.
    NoMetrics,
    /// One datum was published; the service acknowledged it.
    Published { acknowledgment: String },
}

/// What an [`Outcome`] holds.
pub ghost enum OutcomeView {
    NoMetrics,
    Published { acknowledgment: Seq<char> },
}

impl View for Outcome {
    type V = OutcomeView;

    open spec fn view(&self) -> OutcomeView {
        match *self {
            Outcome::NoMetrics => OutcomeView::NoMetrics,
            Outcome::Published { acknowledgment } => OutcomeView::Published {
                acknowledgment: acknowledgment@,
            },
        }
    }
}

/// What the caller does next.
#[derive(Clone, Debug, PartialEq, Eq)]
pub enum Step {
    /// Send `request` to the report `kind` of the cost-reporting service at
    /// `endpoint`, then call [`query_finished`].
    Query { kind: MetricKind, endpoint: Endpoint, request: ReservationQuery },
    /// Convert the decimal `text` to a binary64 number, then call
    /// [`parse_finished`] with `field`, `text` and the number's bits.
    Parse { field: ResponseField, text: String },
    /// Send `input` to the metrics-ingestion service at `endpoint`, then call
    /// [`publish_finished`].
    Publish { endpoint: Endpoint, input: PutMetricInput },
    /// Finish the invocation as a success.
    Complete { outcome: Outcome },
    /// Finish the invocation with `error` as its result.
    Fail { error: BridgeError },
}

/// What a [`Step`] holds.
pub ghost enum StepView {
    Query { kind: MetricKind, endpoint: EndpointView, request: ReservationQueryView },
    Parse { field: ResponseField, text: Seq<char> },
    Publish { endpoint: EndpointView, input: PutMetricInputView },
    Complete { outcome: OutcomeView },
    Fail { error: BridgeErrorView },
}

impl View for Step {
    type V = StepView;

    open spec fn view(&self) -> StepView {
        match *self {
            Step::Query { kind, endpoint, request } => StepView::Query {
                kind,
                endpoint: endpoint@,
                request: request@,
            },
            Step::Parse { field, text } => StepView::Parse { field, text: text@ },
            Step::Publish { endpoint, input } => StepView::Publish { endpoint: endpoint@, input: input@ },
            Step::Complete { outcome } => StepView::Complete { outcome: outcome@ },
            Step::Fail { error } => StepView::Fail { error: error@ },
        }
    }
}

impl StepView {
    /// Whether the step calls one of the two services.
    pub open spec fn calls_service(self) -> bool {
        self is Query || self is Publish
    }

    /// Whether the step ends the invocation.
    pub open spec fn is_final(self) -> bool {
        self is Complete || self is Fail
    }
}

impl Step {
    /// Whether this step ends the invocation.
    pub fn is_final(&self) -> (ended: bool)
        ensures
            ended == self@.is_final(),
    {
        match self {
            Step::Complete { .. } => true,
            Step::Fail { .. } => true,
            _ => false,
        }
    }
}

/// What came back from a query.
#[derive(Clone, Debug, PartialEq, Eq)]
pub enum QueryReply {
    /// The time buckets of a utilization report, oldest first.
    Utilization(Vec<UtilizationBucket>),
    /// The time buckets of a coverage report, oldest first.
    Coverage(Vec<CoverageBucket>),
    /// The call failed; the text describes how.
    Failed(String),
}

/// What a [`QueryReply`] holds.
pub ghost enum QueryReplyView {
    Utilization(Seq<UtilizationBucketView>),
    Coverage(Seq<CoverageBucketView>),
    Failed(Seq<char>),
}

impl View for QueryReply {
    type V = QueryReplyView;

    open spec fn view(&self) -> QueryReplyView {
        match *self {
            QueryReply::Utilization(buckets) => QueryReplyView::Utilization(
                utilization_buckets_of(buckets@),
            ),
            QueryReply::Coverage(buckets) => QueryReplyView::Coverage(coverage_buckets_of(buckets@)),
            QueryReply::Failed(cause) => QueryReplyView::Failed(cause@),
        }
    }
}

/// What came back from a publish call: the acknowledgment, or the cause of
/// the failure.
pub open spec fn publish_outcome_of(outcome: Result<String, String>) -> Result<Seq<char>, Seq<char>> {
    match outcome {
        Ok(acknowledgment) => Ok(acknowledgment@),
        Err(cause) => Err(cause@),
    }
}

/// The first step for `event`: the query that its metric type names, over
/// `window` and at the pinned endpoint; or a failure where the metric type is
/// unsupported.
pub open spec fn first_step(event: EventView, window: DateIntervalView) -> StepView {
    match requested_kind(event) {
        Ok(kind) => StepView::Query {
            kind,
            endpoint: EndpointView::Pinned { region: COST_REPORTING_REGION@ },
            request: query_for(event, window),
        },
        Err(error) => StepView::Fail { error },
    }
}

/// The step that follows a reading of field `field`: done where there is no
/// data, a conversion where there is a text, a failure where the reply is
/// malformed.
pub open spec fn step_after_reading(
    field: ResponseField,
    reading: Result<Option<Seq<char>>, BridgeErrorView>,
) -> StepView {
    match reading {
        Ok(None) => StepView::Complete { outcome: OutcomeView::NoMetrics },
        Ok(Some(text)) => StepView::Parse { field, text },
        Err(error) => StepView::Fail { error },
    }
}

/// The step that follows the reply to a query.
pub open spec fn step_after_query(reply: QueryReplyView) -> StepView {
    match reply {
        QueryReplyView::Utilization(buckets) => step_after_reading(
            ResponseField::UtilizationPercentage,
            utilization_reading(buckets),
        ),
        QueryReplyView::Coverage(buckets) => step_after_reading(
            ResponseField::CoverageHoursPercentage,
            coverage_reading(buckets),
        ),
        QueryReplyView::Failed(cause) => StepView::Fail {
            error: BridgeErrorView::QueryFailed { cause },
        },
    }
}

/// The step that follows the conversion of `text`, found in `field`: the
/// publication of the number for `event` at the deployment's endpoint, or a
/// failure where `text` is no number.
pub open spec fn step_after_parse(
    event: EventView,
    field: ResponseField,
    text: Seq<char>,
    bits: Option<u64>,
) -> StepView {
    match bits {
        Some(bits) => StepView::Publish {
            endpoint: EndpointView::Deployment,
            input: metric_input_for(event, Percentage { bits }),
        },
        None => StepView::Fail {
            error: BridgeErrorView::MalformedResponse { field, found: Some(text) },
        },
    }
}

/// The step that follows a publish call.
pub open spec fn step_after_publish(outcome: Result<Seq<char>, Seq<char>>) -> StepView {
    match outcome {
        Ok(acknowledgment) => StepView::Complete {
            outcome: OutcomeView::Published { acknowledgment },
        },
        Err(cause) => StepView::Fail { error: BridgeErrorView::PublishFailed { cause } },
    }
}

/// Starts an invocation: decides which report `event` asks for and builds
/// its query over `window`.
///
/// An unsupported metric type fails here, before any service is called.
pub fn begin(event: &Event, window: DateInterval) -> (step: Step)
    ensures
        step@ == first_step(event@, window@),
{
    match metric_kind(event) {
        Ok(kind) => Step::Query {
            kind,
            endpoint: Endpoint::Pinned { region: String::from_str(COST_REPORTING_REGION) },
            request: build_query(event, window),
        },
        Err(error) => Step::Fail { error },
    }
}

/// Starts an invocation on the current day of the UTC clock: [`begin`] over
/// the window that ends today.
///
/// An unsupported metric type fails at once and the clock is not read. For
/// any other event the result is `None` where the clock shows no day.
pub fn start(event: &Event) -> (step: Option<Step>)
    ensures
        requested_kind(event@) matches Err(error) ==> step matches Some(first) && first@
            == (StepView::Fail { error }),
        requested_kind(event@) is Ok ==> (step matches Some(first) ==> exists|
            today: CalendarDate,
            window: DateIntervalView,
        |
            #[trigger] is_window_of_clock_day(window, today) && first@ == first_step(event@, window)),
{
    match metric_kind(event) {
        Err(error) => Some(Step::Fail { error }),
        Ok(_) => match current_time_window() {
            Some(window) => Some(begin(event, window)),
            None => None,
        },
    }
}

/// Continues after a query: takes the percentage text from the last bucket
/// of the reply.
///
/// A reply without buckets completes the invocation with nothing published.
/// A failed call fails the invocation with its cause.
pub fn query_finished(reply: QueryReply) -> (step: Step)
    ensures
        step@ == step_after_query(reply@),
{
    match reply {
        QueryReply::Utilization(buckets) => match utilization_percentage(&buckets) {
            Ok(None) => Step::Complete { outcome: Outcome::NoMetrics },
            Ok(Some(text)) => Step::Parse { field: ResponseField::UtilizationPercentage, text },
            Err(error) => Step::Fail { error },
        },
        QueryReply::Coverage(buckets) => match coverage_percentage(&buckets) {
            Ok(None) => Step::Complete { outcome: Outcome::NoMetrics },
            Ok(Some(text)) => Step::Parse { field: ResponseField::CoverageHoursPercentage, text },
            Err(error) => Step::Fail { error },
        },
        QueryReply::Failed(cause) => Step::Fail { error: BridgeError::QueryFailed { cause } },
    }
}

/// Continues after the conversion of `text`, which the reply held in
/// `field`: `bits` is the bit pattern of the number, or `None` where `text`
/// is no number.
pub fn parse_finished(event: &Event, field: ResponseField, text: String, bits: Option<u64>) -> (step: Step)
    ensures
        step@ == step_after_parse(event@, field, text@, bits),
{
    match bits {
        Some(bits) => Step::Publish {
            endpoint: Endpoint::Deployment,
            input: build_metric_input(Percentage { bits }, event),
        },
        None => Step::Fail { error: BridgeError::MalformedResponse { field, found: Some(text) } },
    }
}

/// Ends an invocation after a publish call: `outcome` is the service's
/// acknowledgment, or the cause of the call's failure.
pub fn publish_finished(outcome: Result<String, String>) -> (step: Step)
    ensures
        step@ == step_after_publish(publish_outcome_of(outcome)),
{
    match outcome {
        Ok(acknowledgment) => Step::Complete { outcome: Outcome::Published { acknowledgment } },
        Err(cause) => Step::Fail { error: BridgeError::PublishFailed { cause } },
    }
}

} // verus!

verus! {

/// What the caller brings back in the course of one invocation. A part that
/// the invocation never asks for is not read.
pub ghost struct Reports {
    /// What the query call brings back.
    pub reply: QueryReplyView,
    /// What the conversion of the percentage text brings back.
    pub bits: Option<u64>,
    /// What the publish call brings back.
    pub published: Result<Seq<char>, Seq<char>>,
}

/// The steps of the invocation for `event` over `window`, in order, where
/// the caller brings back `reports`: each step follows from the report on
/// the one before it, and the first final step is the last.
pub open spec fn invocation_steps(event: EventView, window: DateIntervalView, reports: Reports) -> Seq<
    StepView,
> {
    let first = first_step(event, window);
    let second = step_after_query(reports.reply);
    if !(first is Query) {
        seq![first]
    } else {
        match second {
            StepView::Parse { field, text } => {
                let third = step_after_parse(event, field, text, reports.bits);
                if third is Publish {
                    seq![first, second, third, step_after_publish(reports.published)]
                } else {
                    seq![first, second, third]
                }
            },
            _ => seq![first, second],
        }
    }
}

} // verus!
