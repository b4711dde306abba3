//! The ways in which an invocation fails.

use vstd::prelude::*;
use crate::event::text_of;

verus! {

/// A field of a query reply that holds, or leads to, the percentage of a time
/// bucket.
#[derive(Clone, Copy, Debug, PartialEq, Eq, Structural)]
pub enum ResponseField {
    /// The totals of a utilization bucket.
    UtilizationTotal,
    /// The utilization percentage within those totals.
    UtilizationPercentage,
    /// The totals of a coverage bucket.
    CoverageTotal,
    /// The coverage hours within those totals.
    CoverageHours,
    /// The percentage within those coverage hours.
    CoverageHoursPercentage,
}

impl ResponseField {
    /// The path of the field from the root of the reply.
    pub open spec fn path(self) -> Seq<char> {
        match self {
            ResponseField::UtilizationTotal => "UtilizationsByTime[last].Total"@,
            ResponseField::UtilizationPercentage => "UtilizationsByTime[last].Total.UtilizationPercentage"@,
            ResponseField::CoverageTotal => "CoveragesByTime[last].Total"@,
            ResponseField::CoverageHours => "CoveragesByTime[last].Total.CoverageHours"@,
            ResponseField::CoverageHoursPercentage => "CoveragesByTime[last].Total.CoverageHours.CoverageHoursPercentage"@,
        }
    }

    /// The path of the field as an owned text.
    pub fn path_text(self) -> (path: String)
        ensures
            path@ == self.path(),
    {
        match self {
            ResponseField::UtilizationTotal => String::from_str("UtilizationsByTime[last].Total"),
            ResponseField::UtilizationPercentage => String::from_str(
                "UtilizationsByTime[last].Total.UtilizationPercentage",
            ),
            ResponseField::CoverageTotal => String::from_str("CoveragesByTime[last].Total"),
            ResponseField::CoverageHours => String::from_str(
                "CoveragesByTime[last].Total.CoverageHours",
            ),
            ResponseField::CoverageHoursPercentage => String::from_str(
                "CoveragesByTime[last].Total.CoverageHours.CoverageHoursPercentage",
            ),
        }
    }
}

/// Why an invocation failed. Every failure ends the invocation; none is
/// retried here.
#[derive(Clone, Debug, PartialEq, Eq)]
pub enum BridgeError {
    /// The event names a metric type that is neither `"utilization"` nor
    /// `"coverage"`: a configuration error.
    UnsupportedMetricType { value: String },
    /// The cost-reporting call failed in transport or at the service.
    QueryFailed { cause: String },
    /// The reply lacks `field` in its last bucket (`found` is `None`), or
    /// holds there a text that is no number (`found` is that text).
    MalformedResponse { field: ResponseField, found: Option<String> },
    /// The metrics-ingestion call failed in transport or at the service.
    PublishFailed { cause: String },
}

/// What a [`BridgeError`] holds.
pub ghost enum BridgeErrorView {
    UnsupportedMetricType { value: Seq<char> },
    QueryFailed { cause: Seq<char> },
    MalformedResponse { field: ResponseField, found: Option<Seq<char>> },
    PublishFailed { cause: Seq<char> },
}

impl View for BridgeError {
    type V = BridgeErrorView;

    open spec fn view(&self) -> BridgeErrorView {
        match *self {
            BridgeError::UnsupportedMetricType { value } => BridgeErrorView::UnsupportedMetricType {
                value: value@,
            },
            BridgeError::QueryFailed { cause } => BridgeErrorView::QueryFailed { cause: cause@ },
            BridgeError::MalformedResponse { field, found } => BridgeErrorView::MalformedResponse {
                field,
                found: text_of(found),
            },
            BridgeError::PublishFailed { cause } => BridgeErrorView::PublishFailed { cause: cause@ },
        }
    }
}

/// The message under which an error is reported.
pub open spec fn message_of(error: BridgeErrorView) -> Seq<char> {
    match error {
        BridgeErrorView::UnsupportedMetricType { value } => "Unsupported Cost Explorer metrics type: "@
            + value,
        BridgeErrorView::QueryFailed { cause } => "upstream query failed: "@ + cause,
        BridgeErrorView::MalformedResponse { field, found: None } => "malformed upstream response: "@
            + field.path() + " is absent"@,
        BridgeErrorView::MalformedResponse { field, found: Some(text) } => "malformed upstream response: "@
            + field.path() + " is not a number: "@ + text,
        BridgeErrorView::PublishFailed { cause } => "publish failed: "@ + cause,
    }
}

impl BridgeError {
    /// The message under which this error is reported: what failed, then the
    /// cause or the offending value.
    pub fn message(&self) -> (message: String)
        ensures
            message@ == message_of(self@),
    {
        match self {
            BridgeError::UnsupportedMetricType { value } => {
                let mut message = String::from_str("Unsupported Cost Explorer metrics type: ");
                message.append(value.as_str());
                message
            },
            BridgeError::QueryFailed { cause } => {
                let mut message = String::from_str("upstream query failed: ");
                message.append(cause.as_str());
                message
            },
            BridgeError::MalformedResponse { field, found } => {
                let mut message = String::from_str("malformed upstream response: ");
                let path = field.path_text();
                message.append(path.as_str());
                match found {
                    None => {
                        message.append(" is absent");
                    },
                    Some(text) => {
                        message.append(" is not a number: ");
                        message.append(text.as_str());
                    },
                }
                message
            },
            BridgeError::PublishFailed { cause } => {
                let mut message = String::from_str("publish failed: ");
                message.append(cause.as_str());
                message
            },
        }
    }
}

} // verus!
