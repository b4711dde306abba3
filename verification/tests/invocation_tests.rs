use reservation_metrics::{
    begin, build_query, current_time_window, metric_kind, parse_finished, publish_finished,
    query_finished, start, BridgeError,
    Coverage, CoverageBucket, CoverageHours, DateInterval, Dimension, Endpoint, Event,
    FilterClause, MetricKind, Outcome, QueryReply, ResponseField, Step, UtilizationAggregates,
    UtilizationBucket, COST_REPORTING_REGION,
};

fn event(metric_type: Option<&str>) -> Event {
    Event {
        region: Some("ap-northeast-1".to_string()),
        service: None,
        linked_account: Some("123456789012".to_string()),
        granularity: Some("DAILY".to_string()),
        metric_type: metric_type.map(|name| name.to_string()),
        namespace: "Billing/Reservations".to_string(),
        metric_name: "ReservationPercentage".to_string(),
    }
}

fn window() -> DateInterval {
    DateInterval { start: "2019-03-08".to_string(), end: "2019-03-15".to_string() }
}

fn utilization_reply(percentages: &[&str]) -> QueryReply {
    QueryReply::Utilization(
        percentages
            .iter()
            .map(|percentage| UtilizationBucket {
                total: Some(UtilizationAggregates {
                    utilization_percentage: Some(percentage.to_string()),
                }),
            })
            .collect(),
    )
}

fn coverage_reply(percentages: &[&str]) -> QueryReply {
    QueryReply::Coverage(
        percentages
            .iter()
            .map(|percentage| CoverageBucket {
                total: Some(Coverage {
                    coverage_hours: Some(CoverageHours {
                        coverage_hours_percentage: Some(percentage.to_string()),
                    }),
                }),
            })
            .collect(),
    )
}

/// What one run of an invocation did: the reports it asked for, then how it ended.
struct Run {
    queries: Vec<MetricKind>,
    published: Vec<f64>,
    last: Step,
}

/// Runs the steps of an invocation as a caller does, with `reply` for the
/// query and `publish` for the publish call.
fn run(event: &Event, reply: QueryReply, publish: Result<String, String>) -> Run {
    let mut queries = Vec::new();
    let mut published = Vec::new();
    let mut step = begin(event, window());
    let mut turns = 0;
    while !step.is_final() {
        turns += 1;
        assert!(turns <= 3);
        step = match step {
            Step::Query { kind, .. } => {
                queries.push(kind);
                query_finished(reply.clone())
            }
            Step::Parse { field, text } => {
                let bits = text.parse::<f64>().ok().map(f64::to_bits);
                parse_finished(event, field, text, bits)
            }
            Step::Publish { input, .. } => {
                published.push(f64::from_bits(input.metric_data[0].value.bits));
                publish_finished(publish.clone())
            }
            last => last,
        };
    }
    Run { queries, published, last: step }
}

fn acknowledged() -> Result<String, String> {
    Ok("()".to_string())
}

#[test]
fn absent_metric_type_defaults_to_utilization() {
    assert_eq!(metric_kind(&event(None)), Ok(MetricKind::Utilization));
    let done = run(&event(None), utilization_reply(&["42.5"]), acknowledged());
    assert_eq!(done.queries, vec![MetricKind::Utilization]);
}

#[test]
fn utilization_metric_type_queries_utilization() {
    assert_eq!(metric_kind(&event(Some("utilization"))), Ok(MetricKind::Utilization));
    let done = run(&event(Some("utilization")), utilization_reply(&["42.5"]), acknowledged());
    assert_eq!(done.queries, vec![MetricKind::Utilization]);
}

#[test]
fn coverage_metric_type_queries_coverage_and_not_utilization() {
    assert_eq!(metric_kind(&event(Some("coverage"))), Ok(MetricKind::Coverage));
    let done = run(&event(Some("coverage")), coverage_reply(&["17.0"]), acknowledged());
    assert_eq!(done.queries, vec![MetricKind::Coverage]);
}

#[test]
fn unsupported_metric_type_fails_before_any_call() {
    let unsupported = event(Some("anything-else"));
    let expected = BridgeError::UnsupportedMetricType { value: "anything-else".to_string() };
    assert_eq!(metric_kind(&unsupported), Err(expected.clone()));
    assert_eq!(begin(&unsupported, window()), Step::Fail { error: expected.clone() });
    let done = run(&unsupported, utilization_reply(&["42.5"]), acknowledged());
    assert!(done.queries.is_empty());
    assert!(done.published.is_empty());
    assert_eq!(done.last, Step::Fail { error: expected });
}

#[test]
fn metric_type_is_matched_exactly() {
    for name in ["Coverage", "UTILIZATION", "coverage ", ""] {
        assert_eq!(
            metric_kind(&event(Some(name))),
            Err(BridgeError::UnsupportedMetricType { value: name.to_string() })
        );
    }
}

#[test]
fn first_step_queries_the_pinned_endpoint() {
    assert_eq!(COST_REPORTING_REGION, "us-east-1");
    let step = begin(&event(None), window());
    let expected = Step::Query {
        kind: MetricKind::Utilization,
        endpoint: Endpoint::Pinned { region: "us-east-1".to_string() },
        request: build_query(&event(None), window()),
    };
    assert_eq!(step, expected);
}

#[test]
fn query_holds_filter_granularity_and_window() {
    let query = build_query(&event(Some("coverage")), window());
    assert_eq!(
        query.filter.and,
        vec![
            FilterClause { key: "REGION".to_string(), values: vec!["ap-northeast-1".to_string()] },
            FilterClause {
                key: "LINKED_ACCOUNT".to_string(),
                values: vec!["123456789012".to_string()],
            },
        ]
    );
    assert_eq!(query.granularity, Some("DAILY".to_string()));
    assert_eq!(query.time_period, window());
}

#[test]
fn absent_granularity_stays_absent() {
    let mut unspecific = event(None);
    unspecific.granularity = None;
    assert_eq!(build_query(&unspecific, window()).granularity, None);
}

#[test]
fn empty_utilization_reply_completes_without_publish() {
    let done = run(&event(None), utilization_reply(&[]), acknowledged());
    assert_eq!(done.last, Step::Complete { outcome: Outcome::NoMetrics });
    assert_eq!(done.queries.len(), 1);
    assert!(done.published.is_empty());
}

#[test]
fn empty_coverage_reply_completes_without_publish() {
    let done = run(&event(Some("coverage")), coverage_reply(&[]), acknowledged());
    assert_eq!(done.last, Step::Complete { outcome: Outcome::NoMetrics });
    assert!(done.published.is_empty());
}

#[test]
fn utilization_percentage_of_last_bucket_is_published() {
    let done = run(&event(None), utilization_reply(&["10.0", "42.5"]), acknowledged());
    assert_eq!(done.published, vec![42.5]);
    assert_eq!(
        done.last,
        Step::Complete { outcome: Outcome::Published { acknowledgment: "()".to_string() } }
    );
}

#[test]
fn coverage_percentage_of_last_bucket_is_published() {
    let done = run(&event(Some("coverage")), coverage_reply(&["99.0", "17.0"]), acknowledged());
    assert_eq!(done.published, vec![17.0]);
    assert_eq!(
        done.last,
        Step::Complete { outcome: Outcome::Published { acknowledgment: "()".to_string() } }
    );
}

#[test]
fn published_datum_carries_names_and_dimensions_of_the_event() {
    let step = parse_finished(
        &event(None),
        ResponseField::UtilizationPercentage,
        "42.5".to_string(),
        Some(42.5f64.to_bits()),
    );
    match step {
        Step::Publish { endpoint, input } => {
            assert_eq!(endpoint, Endpoint::Deployment);
            assert_eq!(input.namespace, "Billing/Reservations");
            assert_eq!(input.metric_data.len(), 1);
            let datum = &input.metric_data[0];
            assert_eq!(datum.metric_name, "ReservationPercentage");
            assert_eq!(f64::from_bits(datum.value.bits), 42.5);
            assert_eq!(
                datum.dimensions,
                vec![
                    Dimension { name: "Region".to_string(), value: "ap-northeast-1".to_string() },
                    Dimension {
                        name: "LinkedAccount".to_string(),
                        value: "123456789012".to_string(),
                    },
                ]
            );
        }
        other => panic!("expected a publish step, found {:?}", other),
    }
}

#[test]
fn text_of_the_reply_is_handed_out_for_conversion() {
    assert_eq!(
        query_finished(utilization_reply(&["42.5"])),
        Step::Parse { field: ResponseField::UtilizationPercentage, text: "42.5".to_string() }
    );
    assert_eq!(
        query_finished(coverage_reply(&["17.0"])),
        Step::Parse { field: ResponseField::CoverageHoursPercentage, text: "17.0".to_string() }
    );
}

#[test]
fn unparsable_percentage_is_a_malformed_response() {
    let done = run(&event(None), utilization_reply(&["n/a"]), acknowledged());
    assert!(done.published.is_empty());
    assert_eq!(
        done.last,
        Step::Fail {
            error: BridgeError::MalformedResponse {
                field: ResponseField::UtilizationPercentage,
                found: Some("n/a".to_string()),
            },
        }
    );
}

#[test]
fn absent_field_is_a_malformed_response() {
    let reply = QueryReply::Coverage(vec![CoverageBucket { total: Some(Coverage { coverage_hours: None }) }]);
    let done = run(&event(Some("coverage")), reply, acknowledged());
    assert!(done.published.is_empty());
    assert_eq!(
        done.last,
        Step::Fail {
            error: BridgeError::MalformedResponse { field: ResponseField::CoverageHours, found: None },
        }
    );
}

#[test]
fn failed_query_fails_without_publish() {
    let reply = QueryReply::Failed("Unknown(BufferedHttpResponse {status: 500})".to_string());
    let done = run(&event(None), reply, acknowledged());
    assert_eq!(done.queries.len(), 1);
    assert!(done.published.is_empty());
    assert_eq!(
        done.last,
        Step::Fail {
            error: BridgeError::QueryFailed {
                cause: "Unknown(BufferedHttpResponse {status: 500})".to_string(),
            },
        }
    );
}

#[test]
fn failed_publish_fails_after_one_query() {
    let done = run(
        &event(None),
        utilization_reply(&["42.5"]),
        Err("HttpDispatch(connection reset)".to_string()),
    );
    assert_eq!(done.queries.len(), 1);
    assert_eq!(done.published, vec![42.5]);
    assert_eq!(
        done.last,
        Step::Fail {
            error: BridgeError::PublishFailed { cause: "HttpDispatch(connection reset)".to_string() },
        }
    );
}

#[test]
fn final_steps_are_complete_and_fail() {
    assert!(Step::Complete { outcome: Outcome::NoMetrics }.is_final());
    assert!(Step::Fail { error: BridgeError::QueryFailed { cause: String::new() } }.is_final());
    assert!(!Step::Parse { field: ResponseField::UtilizationPercentage, text: "1".to_string() }.is_final());
    assert!(!begin(&event(None), window()).is_final());
}

#[test]
fn start_fails_an_unsupported_metric_type_at_once() {
    let expected = BridgeError::UnsupportedMetricType { value: "anything-else".to_string() };
    assert_eq!(start(&event(Some("anything-else"))), Some(Step::Fail { error: expected }));
}

#[test]
fn start_queries_over_the_current_window() {
    let before = current_time_window().unwrap();
    let step = start(&event(Some("coverage"))).unwrap();
    let after = current_time_window().unwrap();
    match step {
        Step::Query { kind, endpoint, request } => {
            assert_eq!(kind, MetricKind::Coverage);
            assert_eq!(endpoint, Endpoint::Pinned { region: "us-east-1".to_string() });
            assert!(request.time_period == before || request.time_period == after);
            assert_eq!(request.filter, build_query(&event(Some("coverage")), window()).filter);
            assert_eq!(request.granularity, Some("DAILY".to_string()));
        }
        other => panic!("expected a query step, found {:?}", other),
    }
}
