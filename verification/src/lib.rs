//! Republishes a reservation utilization or coverage percentage, read from a
//! cost-reporting service, as one metric datapoint in a monitoring service.
//!
//! The crate holds the decisions of one invocation: which query to send for
//! an event, what to take from the reply, and what to publish. It performs no
//! network call itself. The caller sends each request that a [`Step`] asks
//! for and hands the outcome back.

pub mod calendar;
pub mod error;
pub mod event;
pub mod filter;
pub mod handler;
pub mod laws;
pub mod metric;
pub mod query;
pub mod response;

pub use calendar::{
    current_time_window, time_window, window_between, CalendarDate, DateInterval, MAX_YEAR,
    MIN_YEAR, WINDOW_DAYS,
};
pub use error::{BridgeError, ResponseField};
pub use event::{Event, IdentityField};
pub use filter::{build_filter, push_filter, FilterClause, FilterExpression};
pub use handler::{
    begin, parse_finished, publish_finished, query_finished, start, Endpoint, Outcome, QueryReply,
    Step, COST_REPORTING_REGION,
};
pub use metric::{
    build_dimensions, build_metric_input, push_dimension, Dimension, MetricDatum, Percentage,
    PutMetricInput,
};
pub use query::{build_query, metric_kind, MetricKind, ReservationQuery};
pub use response::{
    coverage_percentage, utilization_percentage, Coverage, CoverageBucket, CoverageHours,
    UtilizationAggregates, UtilizationBucket,
};
