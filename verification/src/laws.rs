//! What holds of every event and of every invocation.

use vstd::prelude::*;
use crate::calendar::DateIntervalView;
use crate::error::BridgeErrorView;
use crate::event::{identity_entries, populated_before, EventView, IdentityField};
use crate::filter::{equality_clause, filter_clauses};
use crate::handler::{
    first_step, invocation_steps, EndpointView, OutcomeView, QueryReplyView, Reports, StepView,
    COST_REPORTING_REGION,
};
use crate::metric::{dimension, metric_dimensions, metric_input_for, Percentage};
use crate::query::{query_for, requested_kind, MetricKind};
use crate::response::{coverage_reading, utilization_reading};

verus! {

/// An event that populates none of its identity fields gives a query without
/// filter clauses and a datum without dimensions.
pub proof fn no_identity_fields_no_clauses(event: EventView, window: DateIntervalView, percentage: Percentage)
    requires
        event.region is None,
        event.service is None,
        event.linked_account is None,
    ensures
        filter_clauses(event).len() == 0,
        metric_dimensions(event).len() == 0,
        query_for(event, window).filter.len() == 0,
        metric_input_for(event, percentage).metric_data.len() == 1,
        metric_input_for(event, percentage).metric_data[0].dimensions.len() == 0,
{
    assert(identity_entries(event) =~= Seq::empty());
}

/// The six fixed names are pairwise different within each naming scheme.
pub proof fn fixed_names_differ()
    ensures
        forall|first: IdentityField, second: IdentityField|
            first != second ==> #[trigger] first.filter_key() != #[trigger] second.filter_key(),
        forall|first: IdentityField, second: IdentityField|
            first != second ==> #[trigger] first.dimension_name() != #[trigger] second.dimension_name(),
{
    reveal_strlit("REGION");
    reveal_strlit("SERVICE");
    reveal_strlit("LINKED_ACCOUNT");
    reveal_strlit("Region");
    reveal_strlit("Service");
    reveal_strlit("LinkedAccount");
    assert forall|first: IdentityField, second: IdentityField| first != second implies #[trigger]
        first.filter_key() != #[trigger] second.filter_key() by {
        assert(first.filter_key().len() != second.filter_key().len());
    }
    assert forall|first: IdentityField, second: IdentityField| first != second implies #[trigger]
        first.dimension_name() != #[trigger] second.dimension_name() by {
        assert(first.dimension_name().len() != second.dimension_name().len());
    }
}

/// Whether position `i` of the filter of `event` holds the clause of
/// `field`, and position `i` of its dimensions the dimension of `field`: the
/// first keyed by the field's filter key and holding the field's value alone,
/// the second named by the field's dimension name and holding the same value.
pub open spec fn listed_at(event: EventView, field: IdentityField, i: int) -> bool {
    &&& field.value_in(event) is Some
    &&& 0 <= i < filter_clauses(event).len()
    &&& 0 <= i < metric_dimensions(event).len()
    &&& filter_clauses(event)[i] == equality_clause(field.filter_key(), field.value_in(event).unwrap())
    &&& metric_dimensions(event)[i] == dimension(
        field.dimension_name(),
        field.value_in(event).unwrap(),
    )
}

/// Exactly the populated identity fields of an event appear in the filter of
/// its query, and the same fields appear as the dimensions of its datum.
///
/// Every populated field is listed, in both lists at the same position:
/// behind the populated fields that are declared before it. Every position
/// lists a populated field, so an absent field gives no clause and no
/// dimension. No two positions hold the same key or the same name, so no
/// field is listed twice.
pub proof fn same_fields_in_filter_and_dimensions(event: EventView)
    ensures
        filter_clauses(event).len() == metric_dimensions(event).len(),
        forall|field: IdentityField| #[trigger]
            field.value_in(event) is Some ==> listed_at(
                event,
                field,
                populated_before(event, field) as int,
            ),
        forall|i: int|
            #![trigger filter_clauses(event)[i]]
            #![trigger metric_dimensions(event)[i]]
            0 <= i < filter_clauses(event).len() ==> exists|field: IdentityField| #[trigger]
                listed_at(event, field, i),
        forall|i: int, j: int|
            0 <= i < j < filter_clauses(event).len() ==> (#[trigger] filter_clauses(event)[i]).key != (
            #[trigger] filter_clauses(event)[j]).key,
        forall|i: int, j: int|
            0 <= i < j < metric_dimensions(event).len() ==> (#[trigger] metric_dimensions(event)[i]).name
                != (#[trigger] metric_dimensions(event)[j]).name,
{
    fixed_names_differ();
    let entries = identity_entries(event);
    let clauses = filter_clauses(event);
    let dimensions = metric_dimensions(event);
    assert(clauses.len() == entries.len());
    assert(dimensions.len() == entries.len());
    assert forall|i: int| 0 <= i < entries.len() implies (#[trigger] entries[i]).field.value_in(event)
        == Some(entries[i].value) by {}
    assert forall|i: int, j: int| 0 <= i < j < entries.len() implies (#[trigger] entries[i]).field
        != (#[trigger] entries[j]).field by {}
    assert forall|field: IdentityField| #[trigger] field.value_in(event) is Some implies listed_at(
        event,
        field,
        populated_before(event, field) as int,
    ) by {
        let i = populated_before(event, field) as int;
        assert(0 <= i < entries.len() && entries[i].field == field);
    }
    assert forall|i: int|
        #![trigger filter_clauses(event)[i]]
        #![trigger metric_dimensions(event)[i]]
        0 <= i < clauses.len() implies exists|field: IdentityField| #[trigger]
        listed_at(event, field, i) by {
        assert(listed_at(event, entries[i].field, i));
    }
}

/// The shape of every invocation: it takes one to four steps, the last step
/// and no other ends it, only the first step can be a query and only the
/// third a publication. So no invocation queries twice or publishes twice,
/// and none publishes without having queried.
pub proof fn invocation_shape(event: EventView, window: DateIntervalView, reports: Reports)
    ensures
        1 <= invocation_steps(event, window, reports).len() <= 4,
        invocation_steps(event, window, reports)[0] == first_step(event, window),
        invocation_steps(event, window, reports).last().is_final(),
        forall|i: int|
            0 <= i < invocation_steps(event, window, reports).len() - 1 ==> !(
            #[trigger] invocation_steps(event, window, reports)[i]).is_final(),
        forall|i: int|
            0 <= i < invocation_steps(event, window, reports).len() && (
            #[trigger] invocation_steps(event, window, reports)[i]) is Query ==> i == 0,
        forall|i: int|
            0 <= i < invocation_steps(event, window, reports).len() && (
            #[trigger] invocation_steps(event, window, reports)[i]) is Publish ==> i == 2
                && invocation_steps(event, window, reports)[0] is Query,
{
}

/// An event that names no metric type asks for the utilization report, at
/// the pinned endpoint.
pub proof fn absent_metric_type_queries_utilization(event: EventView, window: DateIntervalView)
    requires
        event.metric_type is None,
    ensures
        first_step(event, window) == (StepView::Query {
            kind: MetricKind::Utilization,
            endpoint: EndpointView::Pinned { region: COST_REPORTING_REGION@ },
            request: query_for(event, window),
        }),
{
}

/// An event whose metric type is `"coverage"` asks for the coverage report,
/// and no step of its invocation queries the utilization report.
pub proof fn coverage_type_queries_coverage_only(
    event: EventView,
    window: DateIntervalView,
    reports: Reports,
)
    requires
        event.metric_type == Some("coverage"@),
    ensures
        first_step(event, window) == (StepView::Query {
            kind: MetricKind::Coverage,
            endpoint: EndpointView::Pinned { region: COST_REPORTING_REGION@ },
            request: query_for(event, window),
        }),
        forall|i: int|
            0 <= i < invocation_steps(event, window, reports).len() ==> (
            #[trigger] invocation_steps(event, window, reports)[i] matches StepView::Query { kind, .. }
                ==> kind == MetricKind::Coverage),
{
    reveal_strlit("coverage");
    reveal_strlit("utilization");
    assert("coverage"@.len() != "utilization"@.len());
}

/// An event whose metric type is neither `"utilization"` nor `"coverage"`
/// fails with a configuration error that carries the offending text, and the
/// failure is the only step: no service is called.
pub proof fn unsupported_metric_type_fails_first(
    event: EventView,
    window: DateIntervalView,
    reports: Reports,
)
    requires
        event.metric_type is Some,
        event.metric_type != Some("utilization"@),
        event.metric_type != Some("coverage"@),
    ensures
        invocation_steps(event, window, reports) == seq![
            StepView::Fail {
                error: BridgeErrorView::UnsupportedMetricType { value: event.metric_type.unwrap() },
            },
        ],
        forall|i: int|
            0 <= i < invocation_steps(event, window, reports).len() ==> !(
            #[trigger] invocation_steps(event, window, reports)[i]).calls_service(),
{
}

/// Whether a reply came back without error and holds no time bucket.
pub open spec fn holds_no_bucket(reply: QueryReplyView) -> bool {
    match reply {
        QueryReplyView::Utilization(buckets) => buckets.len() == 0,
        QueryReplyView::Coverage(buckets) => buckets.len() == 0,
        QueryReplyView::Failed(_) => false,
    }
}

/// A reply without time buckets completes the invocation as a success, and
/// nothing is published.
pub proof fn empty_reply_publishes_nothing(event: EventView, window: DateIntervalView, reports: Reports)
    requires
        requested_kind(event) is Ok,
        holds_no_bucket(reports.reply),
    ensures
        invocation_steps(event, window, reports).last() == (StepView::Complete {
            outcome: OutcomeView::NoMetrics,
        }),
        forall|i: int|
            0 <= i < invocation_steps(event, window, reports).len() ==> !(
            #[trigger] invocation_steps(event, window, reports)[i] is Publish),
{
}

/// A failed query fails the invocation with the cause of the failure, and
/// nothing is published.
pub proof fn failed_query_publishes_nothing(
    event: EventView,
    window: DateIntervalView,
    reports: Reports,
    cause: Seq<char>,
)
    requires
        requested_kind(event) is Ok,
        reports.reply == QueryReplyView::Failed(cause),
    ensures
        invocation_steps(event, window, reports).last() == (StepView::Fail {
            error: BridgeErrorView::QueryFailed { cause },
        }),
        forall|i: int|
            0 <= i < invocation_steps(event, window, reports).len() ==> !(
            #[trigger] invocation_steps(event, window, reports)[i] is Publish),
{
}

/// The percentage text that a reply holds in its last bucket, where it came
/// back without error and holds one.
pub open spec fn percentage_text(reply: QueryReplyView) -> Option<Seq<char>> {
    match reply {
        QueryReplyView::Utilization(buckets) => match utilization_reading(buckets) {
            Ok(text) => text,
            Err(_) => None,
        },
        QueryReplyView::Coverage(buckets) => match coverage_reading(buckets) {
            Ok(text) => text,
            Err(_) => None,
        },
        QueryReplyView::Failed(_) => None,
    }
}

/// A reply whose last bucket holds a percentage text that is a number leads
/// to the publication of exactly that number, in one datum under the event's
/// namespace and metric name, at the deployment's endpoint.
pub proof fn parsed_percentage_is_published(
    event: EventView,
    window: DateIntervalView,
    reports: Reports,
    bits: u64,
)
    requires
        requested_kind(event) is Ok,
        percentage_text(reports.reply) is Some,
        reports.bits == Some(bits),
    ensures
        invocation_steps(event, window, reports).len() == 4,
        invocation_steps(event, window, reports)[2] == (StepView::Publish {
            endpoint: EndpointView::Deployment,
            input: metric_input_for(event, Percentage { bits }),
        }),
        metric_input_for(event, Percentage { bits }).metric_data.len() == 1,
        metric_input_for(event, Percentage { bits }).metric_data[0].value.bits == bits,
{
}

/// A failed publication after a successful query fails the invocation with
/// the cause of the failure. The query is not sent again: the first step is
/// the only query.
pub proof fn failed_publish_fails_invocation(
    event: EventView,
    window: DateIntervalView,
    reports: Reports,
    cause: Seq<char>,
)
    requires
        requested_kind(event) is Ok,
        percentage_text(reports.reply) is Some,
        reports.bits is Some,
        reports.published == Err::<Seq<char>, Seq<char>>(cause),
    ensures
        invocation_steps(event, window, reports).last() == (StepView::Fail {
            error: BridgeErrorView::PublishFailed { cause },
        }),
        forall|i: int|
            0 <= i < invocation_steps(event, window, reports).len() && (
            #[trigger] invocation_steps(event, window, reports)[i]) is Query ==> i == 0,
{
}

} // verus!
