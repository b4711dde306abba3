//! The replies of the cost-reporting service, and the percentage that the
//! most recent time bucket of a reply holds.
//!
//! The service promises none of the nested fields, so each is optional here.

use vstd::prelude::*;
use crate::error::{BridgeError, BridgeErrorView, ResponseField};
use crate::event::text_of;

verus! {

/// The totals of one utilization bucket.
#[derive(Clone, Debug, PartialEq, Eq)]
pub struct UtilizationAggregates {
    /// The used share of the reserved capacity, as a decimal text.
    pub utilization_percentage: Option<String>,
}

/// One time bucket of a utilization reply.
#[derive(Clone, Debug, PartialEq, Eq)]
pub struct UtilizationBucket {
    pub total: Option<UtilizationAggregates>,
}

/// The hours of one coverage bucket.
#[derive(Clone, Debug, PartialEq, Eq)]
pub struct CoverageHours {
    /// The covered share of the running hours, as a decimal text.
    pub coverage_hours_percentage: Option<String>,
}

/// The totals of one coverage bucket.
#[derive(Clone, Debug, PartialEq, Eq)]
pub struct Coverage {
    pub coverage_hours: Option<CoverageHours>,
}

/// One time bucket of a coverage reply.
#[derive(Clone, Debug, PartialEq, Eq)]
pub struct CoverageBucket {
    pub total: Option<Coverage>,
}

/// What a [`UtilizationBucket`] holds: its totals where present, and within
/// them the percentage where present.
pub ghost struct UtilizationBucketView {
    pub total: Option<Option<Seq<char>>>,
}

/// What a [`CoverageBucket`] holds: its totals where present, within them the
/// coverage hours where present, and within those the percentage where
/// present.
pub ghost struct CoverageBucketView {
    pub total: Option<Option<Option<Seq<char>>>>,
}

impl View for UtilizationBucket {
    type V = UtilizationBucketView;

    open spec fn view(&self) -> UtilizationBucketView {
        UtilizationBucketView {
            total: match self.total {
                Some(total) => Some(text_of(total.utilization_percentage)),
                None => None,
            },
        }
    }
}

impl View for CoverageBucket {
    type V = CoverageBucketView;

    open spec fn view(&self) -> CoverageBucketView {
        CoverageBucketView {
            total: match self.total {
                Some(total) => Some(
                    match total.coverage_hours {
                        Some(hours) => Some(text_of(hours.coverage_hours_percentage)),
                        None => None,
                    },
                ),
                None => None,
            },
        }
    }
}

/// What each bucket of a utilization reply holds.
pub open spec fn utilization_buckets_of(buckets: Seq<UtilizationBucket>) -> Seq<UtilizationBucketView> {
    buckets.map_values(|bucket: UtilizationBucket| bucket@)
}

/// What each bucket of a coverage reply holds.
pub open spec fn coverage_buckets_of(buckets: Seq<CoverageBucket>) -> Seq<CoverageBucketView> {
    buckets.map_values(|bucket: CoverageBucket| bucket@)
}

/// The field that a reply lacks, as an error.
pub open spec fn absent(field: ResponseField) -> BridgeErrorView {
    BridgeErrorView::MalformedResponse { field, found: None }
}

/// The percentage text of a utilization reply: none for a reply without
/// buckets, else the one of the last bucket, and an error where that bucket
/// lacks it.
pub open spec fn utilization_reading(buckets: Seq<UtilizationBucketView>) -> Result<
    Option<Seq<char>>,
    BridgeErrorView,
> {
    if buckets.len() == 0 {
        Ok(None)
    } else {
        match buckets.last().total {
            None => Err(absent(ResponseField::UtilizationTotal)),
            Some(None) => Err(absent(ResponseField::UtilizationPercentage)),
            Some(Some(text)) => Ok(Some(text)),
        }
    }
}

/// The percentage text of a coverage reply: none for a reply without buckets,
/// else the one of the last bucket, and an error where that bucket lacks it.
pub open spec fn coverage_reading(buckets: Seq<CoverageBucketView>) -> Result<
    Option<Seq<char>>,
    BridgeErrorView,
> {
    if buckets.len() == 0 {
        Ok(None)
    } else {
        match buckets.last().total {
            None => Err(absent(ResponseField::CoverageTotal)),
            Some(None) => Err(absent(ResponseField::CoverageHours)),
            Some(Some(None)) => Err(absent(ResponseField::CoverageHoursPercentage)),
            Some(Some(Some(text))) => Ok(Some(text)),
        }
    }
}

/// What a reading holds.
pub open spec fn reading_of(reading: Result<Option<String>, BridgeError>) -> Result<
    Option<Seq<char>>,
    BridgeErrorView,
> {
    match reading {
        Ok(text) => Ok(text_of(text)),
        Err(error) => Err(error@),
    }
}

/// Takes the percentage text from the last bucket of a utilization reply.
pub fn utilization_percentage(buckets: &Vec<UtilizationBucket>) -> (reading: Result<
    Option<String>,
    BridgeError,
>)
    ensures
        reading_of(reading) == utilization_reading(utilization_buckets_of(buckets@)),
{
    let count = buckets.len();
    if count == 0 {
        return Ok(None);
    }
    let last = &buckets[count - 1];
    assert(utilization_buckets_of(buckets@).last() == last@);
    match &last.total {
        None => Err(BridgeError::MalformedResponse { field: ResponseField::UtilizationTotal, found: None }),
        Some(total) => match &total.utilization_percentage {
            None => Err(
                BridgeError::MalformedResponse {
                    field: ResponseField::UtilizationPercentage,
                    found: None,
                },
            ),
            Some(text) => Ok(Some(text.clone())),
        },
    }
}

/// Takes the percentage text from the last bucket of a coverage reply.
pub fn coverage_percentage(buckets: &Vec<CoverageBucket>) -> (reading: Result<
    Option<String>,
    BridgeError,
>)
    ensures
        reading_of(reading) == coverage_reading(coverage_buckets_of(buckets@)),
{
    let count = buckets.len();
    if count == 0 {
        return Ok(None);
    }
    let last = &buckets[count - 1];
    assert(coverage_buckets_of(buckets@).last() == last@);
    match &last.total {
        None => Err(BridgeError::MalformedResponse { field: ResponseField::CoverageTotal, found: None }),
        Some(total) => match &total.coverage_hours {
            None => Err(BridgeError::MalformedResponse { field: ResponseField::CoverageHours, found: None }),
            Some(hours) => match &hours.coverage_hours_percentage {
                None => Err(
                    BridgeError::MalformedResponse {
                        field: ResponseField::CoverageHoursPercentage,
                        found: None,
                    },
                ),
                Some(text) => Ok(Some(text.clone())),
            },
        },
    }
}

} // verus!
