//! The cost-reporting query of an event: which of the two reports it asks
//! for, and with what filter, granularity and time period.

use vstd::prelude::*;
use crate::calendar::{DateInterval, DateIntervalView};
use crate::error::{BridgeError, BridgeErrorView};
use crate::event::{text_of, Event, EventView};
use crate::filter::{build_filter, filter_clauses, FilterClauseView, FilterExpression};

verus! {

/// The two reports that the cost-reporting service offers on reservations.
#[derive(Clone, Copy, Debug, PartialEq, Eq, Structural)]
pub enum MetricKind {
    /// The share of the reserved capacity that was used.
    Utilization,
    /// The share of the usage that reservations covered.
    Coverage,
}

/// The report that `event` asks for: utilization where it names none, and an
/// unsupported-type error where it names anything but the two.
pub open spec fn requested_kind(event: EventView) -> Result<MetricKind, BridgeErrorView> {
    match event.metric_type {
        None => Ok(MetricKind::Utilization),
        Some(name) => if name == "utilization"@ {
            Ok(MetricKind::Utilization)
        } else if name == "coverage"@ {
            Ok(MetricKind::Coverage)
        } else {
            Err(BridgeErrorView::UnsupportedMetricType { value: name })
        },
    }
}

/// What the outcome of a dispatch holds.
pub open spec fn kind_of(kind: Result<MetricKind, BridgeError>) -> Result<MetricKind, BridgeErrorView> {
    match kind {
        Ok(kind) => Ok(kind),
        Err(error) => Err(error@),
    }
}

/// Reads the metric type of `event` and names the report to query.
pub fn metric_kind(event: &Event) -> (kind: Result<MetricKind, BridgeError>)
    ensures
        kind_of(kind) == requested_kind(event@),
{
    match &event.metric_type {
        None => Ok(MetricKind::Utilization),
        Some(name) => {
            let utilization = String::from_str("utilization");
            let coverage = String::from_str("coverage");
            if *name == utilization {
                Ok(MetricKind::Utilization)
            } else if *name == coverage {
                Ok(MetricKind::Coverage)
            } else {
                Err(BridgeError::UnsupportedMetricType { value: name.clone() })
            }
        },
    }
}

/// A request for one of the two reports.
#[derive(Clone, Debug, PartialEq, Eq)]
pub struct ReservationQuery {
    /// Restricts the report to what matches every clause.
    pub filter: FilterExpression,
    /// Time-bucketing resolution; the service picks one where absent.
    pub granularity: Option<String>,
    /// The days that the report covers.
    pub time_period: DateInterval,
}

/// What a [`ReservationQuery`] holds.
pub ghost struct ReservationQueryView {
    pub filter: Seq<FilterClauseView>,
    pub granularity: Option<Seq<char>>,
    pub time_period: DateIntervalView,
}

impl View for ReservationQuery {
    type V = ReservationQueryView;

    open spec fn view(&self) -> ReservationQueryView {
        ReservationQueryView {
            filter: self.filter@,
            granularity: text_of(self.granularity),
            time_period: self.time_period@,
        }
    }
}

/// The query that `event` asks for over `window`: filtered by its populated
/// identity fields, with its granularity as it stands.
pub open spec fn query_for(event: EventView, window: DateIntervalView) -> ReservationQueryView {
    ReservationQueryView {
        filter: filter_clauses(event),
        granularity: event.granularity,
        time_period: window,
    }
}

/// A copy of an optional text.
fn copy_text(value: &Option<String>) -> (copy: Option<String>)
    ensures
        text_of(copy) == text_of(*value),
{
    match value {
        Some(text) => Some(text.clone()),
        None => None,
    }
}

/// Builds the query for `event` over `window`.
pub fn build_query(event: &Event, window: DateInterval) -> (query: ReservationQuery)
    ensures
        query@ == query_for(event@, window@),
{
    ReservationQuery {
        filter: build_filter(event),
        granularity: copy_text(&event.granularity),
        time_period: window,
    }
}

} // verus!
