//! The metric datum that an invocation publishes.

use vstd::prelude::*;
use crate::event::{identity_entries, Event, EventView, IdentityEntry, IdentityField};

verus! {

/// A percentage as the bit pattern of an IEEE 754 binary64 number.
///
/// The crate carries the value and never computes with it.
#[derive(Clone, Copy, Debug, PartialEq, Eq, Structural)]
pub struct Percentage {
    pub bits: u64,
}

/// A named tag of a metric datapoint.
#[derive(Clone, Debug, PartialEq, Eq)]
pub struct Dimension {
    pub name: String,
    pub value: String,
}

/// What a [`Dimension`] holds.
pub ghost struct DimensionView {
    pub name: Seq<char>,
    pub value: Seq<char>,
}

impl View for Dimension {
    type V = DimensionView;

    open spec fn view(&self) -> DimensionView {
        DimensionView { name: self.name@, value: self.value@ }
    }
}

/// What each dimension of a list holds.
pub open spec fn dimensions_of(dimensions: Seq<Dimension>) -> Seq<DimensionView> {
    dimensions.map_values(|dimension: Dimension| dimension@)
}

/// One datapoint of a metric.
#[derive(Clone, Debug, PartialEq, Eq)]
pub struct MetricDatum {
    pub metric_name: String,
    pub value: Percentage,
    pub dimensions: Vec<Dimension>,
}

/// What a [`MetricDatum`] holds.
pub ghost struct MetricDatumView {
    pub metric_name: Seq<char>,
    pub value: Percentage,
    pub dimensions: Seq<DimensionView>,
}

impl View for MetricDatum {
    type V = MetricDatumView;

    open spec fn view(&self) -> MetricDatumView {
        MetricDatumView {
            metric_name: self.metric_name@,
            value: self.value,
            dimensions: dimensions_of(self.dimensions@),
        }
    }
}

/// What each datum of a list holds.
pub open spec fn data_of(data: Seq<MetricDatum>) -> Seq<MetricDatumView> {
    data.map_values(|datum: MetricDatum| datum@)
}

/// A request to publish datapoints under one namespace.
#[derive(Clone, Debug, PartialEq, Eq)]
pub struct PutMetricInput {
    pub namespace: String,
    pub metric_data: Vec<MetricDatum>,
}

/// What a [`PutMetricInput`] holds.
pub ghost struct PutMetricInputView {
    pub namespace: Seq<char>,
    pub metric_data: Seq<MetricDatumView>,
}

impl View for PutMetricInput {
    type V = PutMetricInputView;

    open spec fn view(&self) -> PutMetricInputView {
        PutMetricInputView { namespace: self.namespace@, metric_data: data_of(self.metric_data@) }
    }
}

/// The dimension that tags a datapoint with `value` under `name`.
pub open spec fn dimension(name: Seq<char>, value: Seq<char>) -> DimensionView {
    DimensionView { name, value }
}

/// The dimensions of the datapoint for `event`: one per populated identity
/// field, in the fields' declared order.
pub open spec fn metric_dimensions(event: EventView) -> Seq<DimensionView> {
    identity_entries(event).map_values(
        |entry: IdentityEntry| dimension(entry.field.dimension_name(), entry.value),
    )
}

/// The request that publishes `percentage` for `event`: exactly one datum,
/// under the event's namespace and metric name.
pub open spec fn metric_input_for(event: EventView, percentage: Percentage) -> PutMetricInputView {
    PutMetricInputView {
        namespace: event.namespace,
        metric_data: seq![
            MetricDatumView {
                metric_name: event.metric_name,
                value: percentage,
                dimensions: metric_dimensions(event),
            },
        ],
    }
}

/// Appends the dimension `name = element` to `dimensions` where
/// `event_element` is present, and leaves `dimensions` as it is otherwise.
pub fn push_dimension(event_element: &Option<String>, dimensions: &mut Vec<Dimension>, name: String)
    ensures
        dimensions_of(final(dimensions)@) == match *event_element {
            Some(element) => dimensions_of(old(dimensions)@).push(dimension(name@, element@)),
            None => dimensions_of(old(dimensions)@),
        },
{
    match event_element {
        Some(element) => {
            let tag = Dimension { name, value: element.clone() };
            dimensions.push(tag);
            assert(dimensions_of(dimensions@) =~= dimensions_of(old(dimensions)@).push(tag@));
        },
        None => {},
    }
}

/// The dimensions of the datapoint for `event`.
pub fn build_dimensions(event: &Event) -> (dimensions: Vec<Dimension>)
    ensures
        dimensions_of(dimensions@) == metric_dimensions(event@),
{
    let mut dimensions: Vec<Dimension> = Vec::new();
    assert(dimensions_of(dimensions@) =~= Seq::empty());
    push_dimension(&event.region, &mut dimensions, IdentityField::Region.dimension_name_text());
    push_dimension(&event.service, &mut dimensions, IdentityField::Service.dimension_name_text());
    push_dimension(
        &event.linked_account,
        &mut dimensions,
        IdentityField::LinkedAccount.dimension_name_text(),
    );
    assert(dimensions_of(dimensions@) =~= metric_dimensions(event@));
    dimensions
}

/// Builds the request that publishes `percentage` for `event`.
pub fn build_metric_input(percentage: Percentage, event: &Event) -> (input: PutMetricInput)
    ensures
        input@ == metric_input_for(event@, percentage),
{
    let datum = MetricDatum {
        metric_name: event.metric_name.clone(),
        value: percentage,
        dimensions: build_dimensions(event),
    };
    let mut metric_data: Vec<MetricDatum> = Vec::new();
    metric_data.push(datum);
    assert(data_of(metric_data@) =~= seq![datum@]);
    PutMetricInput { namespace: event.namespace.clone(), metric_data }
}

} // verus!
