use reservation_metrics::{
    coverage_percentage, utilization_percentage, BridgeError, Coverage, CoverageBucket,
    CoverageHours, ResponseField, UtilizationAggregates, UtilizationBucket,
};

fn utilization_bucket(percentage: &str) -> UtilizationBucket {
    UtilizationBucket {
        total: Some(UtilizationAggregates { utilization_percentage: Some(percentage.to_string()) }),
    }
}

fn coverage_bucket(percentage: &str) -> CoverageBucket {
    CoverageBucket {
        total: Some(Coverage {
            coverage_hours: Some(CoverageHours {
                coverage_hours_percentage: Some(percentage.to_string()),
            }),
        }),
    }
}

fn absent(field: ResponseField) -> BridgeError {
    BridgeError::MalformedResponse { field, found: None }
}

#[test]
fn utilization_reply_without_buckets_has_no_data() {
    assert_eq!(utilization_percentage(&Vec::new()), Ok(None));
}

#[test]
fn coverage_reply_without_buckets_has_no_data() {
    assert_eq!(coverage_percentage(&Vec::new()), Ok(None));
}

#[test]
fn utilization_percentage_is_taken_from_the_single_bucket() {
    let buckets = vec![utilization_bucket("88.25")];
    assert_eq!(utilization_percentage(&buckets), Ok(Some("88.25".to_string())));
}

#[test]
fn utilization_percentage_is_taken_from_the_last_bucket() {
    let buckets = vec![utilization_bucket("10.0"), utilization_bucket("20.0"), utilization_bucket("42.5")];
    assert_eq!(utilization_percentage(&buckets), Ok(Some("42.5".to_string())));
}

#[test]
fn coverage_percentage_is_taken_from_the_last_bucket() {
    let buckets = vec![coverage_bucket("99.0"), coverage_bucket("17.0")];
    assert_eq!(coverage_percentage(&buckets), Ok(Some("17.0".to_string())));
}

#[test]
fn utilization_text_is_not_interpreted() {
    let buckets = vec![utilization_bucket("not a number")];
    assert_eq!(utilization_percentage(&buckets), Ok(Some("not a number".to_string())));
}

#[test]
fn utilization_bucket_without_total_is_malformed() {
    let buckets = vec![utilization_bucket("42.5"), UtilizationBucket { total: None }];
    assert_eq!(utilization_percentage(&buckets), Err(absent(ResponseField::UtilizationTotal)));
}

#[test]
fn utilization_total_without_percentage_is_malformed() {
    let buckets = vec![UtilizationBucket {
        total: Some(UtilizationAggregates { utilization_percentage: None }),
    }];
    assert_eq!(utilization_percentage(&buckets), Err(absent(ResponseField::UtilizationPercentage)));
}

#[test]
fn earlier_malformed_utilization_bucket_is_not_read() {
    let buckets = vec![UtilizationBucket { total: None }, utilization_bucket("42.5")];
    assert_eq!(utilization_percentage(&buckets), Ok(Some("42.5".to_string())));
}

#[test]
fn coverage_bucket_without_total_is_malformed() {
    let buckets = vec![coverage_bucket("17.0"), CoverageBucket { total: None }];
    assert_eq!(coverage_percentage(&buckets), Err(absent(ResponseField::CoverageTotal)));
}

#[test]
fn coverage_total_without_hours_is_malformed() {
    let buckets = vec![CoverageBucket { total: Some(Coverage { coverage_hours: None }) }];
    assert_eq!(coverage_percentage(&buckets), Err(absent(ResponseField::CoverageHours)));
}

#[test]
fn coverage_hours_without_percentage_is_malformed() {
    let buckets = vec![CoverageBucket {
        total: Some(Coverage {
            coverage_hours: Some(CoverageHours { coverage_hours_percentage: None }),
        }),
    }];
    assert_eq!(coverage_percentage(&buckets), Err(absent(ResponseField::CoverageHoursPercentage)));
}

#[test]
fn earlier_malformed_coverage_bucket_is_not_read() {
    let buckets = vec![CoverageBucket { total: None }, coverage_bucket("17.0")];
    assert_eq!(coverage_percentage(&buckets), Ok(Some("17.0".to_string())));
}

#[test]
fn paths_of_response_fields() {
    assert_eq!(ResponseField::UtilizationTotal.path_text(), "UtilizationsByTime[last].Total");
    assert_eq!(
        ResponseField::UtilizationPercentage.path_text(),
        "UtilizationsByTime[last].Total.UtilizationPercentage"
    );
    assert_eq!(ResponseField::CoverageTotal.path_text(), "CoveragesByTime[last].Total");
    assert_eq!(ResponseField::CoverageHours.path_text(), "CoveragesByTime[last].Total.CoverageHours");
    assert_eq!(
        ResponseField::CoverageHoursPercentage.path_text(),
        "CoveragesByTime[last].Total.CoverageHours.CoverageHoursPercentage"
    );
}

#[test]
fn message_of_unsupported_metric_type() {
    let error = BridgeError::UnsupportedMetricType { value: "anything-else".to_string() };
    assert_eq!(error.message(), "Unsupported Cost Explorer metrics type: anything-else");
}

#[test]
fn message_of_failed_query() {
    let error = BridgeError::QueryFailed { cause: "Unknown(503)".to_string() };
    assert_eq!(error.message(), "upstream query failed: Unknown(503)");
}

#[test]
fn message_of_absent_field() {
    let error = BridgeError::MalformedResponse { field: ResponseField::CoverageHours, found: None };
    assert_eq!(
        error.message(),
        "malformed upstream response: CoveragesByTime[last].Total.CoverageHours is absent"
    );
}

#[test]
fn message_of_unparsable_percentage() {
    let error = BridgeError::MalformedResponse {
        field: ResponseField::UtilizationPercentage,
        found: Some("n/a".to_string()),
    };
    assert_eq!(
        error.message(),
        "malformed upstream response: UtilizationsByTime[last].Total.UtilizationPercentage is not a number: n/a"
    );
}

#[test]
fn message_of_failed_publish() {
    let error = BridgeError::PublishFailed { cause: "HttpDispatch(timeout)".to_string() };
    assert_eq!(error.message(), "publish failed: HttpDispatch(timeout)");
}
