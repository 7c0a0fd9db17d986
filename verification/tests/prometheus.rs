use slack_app::calendar::TimeRange;
use slack_app::db::models::{NewAlert, Timestamp};
use slack_app::db::Db;
use slack_app::events::EventBus;
use slack_app::service::{Service, SlackServiceConfig};
use slack_app::service::alertmanager::labels::Labels;
use slack_app::service::charts::handlers::{chart_file_of, charts_get, CHART_CONTENT_TYPE};
use slack_app::service::charts::{
    chart_filename, get_shape_list_color, y_formatter, ChartHandlerError, ChartService,
    ChartServiceConfig, FormatterKind, GRID_STROKE_COLOR, SHAPE_COLOR_COUNT, TICK_COLOR,
};
use slack_app::service::prometheus::timeseries::{
    query_series, StepSize, StepUnit, TimeseriesQuery,
};
use slack_app::service::prometheus::types::split_series_name;
use slack_app::service::prometheus::{
    get_prometheus_window_from_time_range, latency_percentile, query_for_slo, PrometheusService,
    PrometheusServiceConfig, PrometheusServiceError,
};
use slack_app::text::{has_prefix, push_decimal, push_decimal_digits, strip_prefix, text_eq};

fn six_hours() -> TimeRange {
    TimeRange {
        from: Timestamp::from_unix_nanos(-21_600_000_000_000),
        to: Timestamp::from_unix_nanos(0),
    }
}

fn success_rate(objective_name: &str, percentile: &str, interval: &str) -> String {
    let build_info_interval = "5s";
    format!(
        r#"
(
    sum by(function, module, version, commit, service_name) (
        rate(
            {{
                __name__=~"function_calls(_count)?(_total)?",
                result="ok", 
                objective_name="{objective_name}",
                objective_percentile="{percentile}"
            }}[{interval}]
        )
        * on (instance, job) group_left(version, commit) (
            last_over_time(build_info[{build_info_interval}])
            or on (instance, job) up
        )
    )
) / (
    sum by(function, module, version, commit, service_name) (
        rate(
            {{
                __name__=~"function_calls(_count)?(_total)?",
                objective_name="{objective_name}",
                objective_percentile="{percentile}"

            }}[{interval}]
        )
        * on (instance, job) group_left(version, commit) (
            last_over_time(build_info[{build_info_interval}])
            or on (instance, job) up
        )
    ) > 0
)
            "#
    )
}

fn latency(
    promql_percentile: &str,
    objective_name: &str,
    percentile: &str,
    interval: &str,
) -> String {
    let build_info_interval = "5s";
    format!(
        r#"
label_replace(
    histogram_quantile(
        {promql_percentile},
        sum by (le, function, module, commit, version, service_name) (
        rate({{
            __name__=~"function_calls_duration(_seconds)?_bucket",
            objective_name="{objective_name}",
            objective_percentile="{percentile}",
        }}[{interval}])
        # Attach the version and commit labels from the build_info metric
        * on (instance, job) group_left(version, commit) (
            last_over_time(build_info[{build_info_interval}])
            or on (instance, job) up
        )
        )
    ),
    # Add the percentile_latency label to the time series
    "percentile_latency", "{percentile}", "", ""
)
        "#
    )
}

#[test]
fn window_is_the_length_of_the_range_in_seconds() {
    assert_eq!(get_prometheus_window_from_time_range(&six_hours()), "21600s");
    let backwards = TimeRange {
        from: Timestamp::from_unix_nanos(90_000_000_000),
        to: Timestamp::from_unix_nanos(0),
    };
    assert_eq!(get_prometheus_window_from_time_range(&backwards), "-90s");
    let short = TimeRange {
        from: Timestamp::from_unix_nanos(0),
        to: Timestamp::from_unix_nanos(999_999_999),
    };
    assert_eq!(get_prometheus_window_from_time_range(&short), "0s");
}

#[test]
fn success_rate_query_names_objective_percentile_and_window() {
    let query = query_for_slo("success-rate-99.9", "api", &six_hours(), None).unwrap();
    assert_eq!(query, success_rate("api", "99.9", "21600s"));
}

#[test]
fn latency_query_names_quantile_objective_percentile_and_window() {
    let query = query_for_slo("latency-95", "checkout", &six_hours(), Some("0.95")).unwrap();
    assert_eq!(query, latency("0.95", "checkout", "95", "21600s"));
}

#[test]
fn latency_query_without_quantile_is_invalid_percentile() {
    match query_for_slo("latency-fast", "checkout", &six_hours(), None) {
        Err(PrometheusServiceError::InvalidPercentile(percentile)) => {
            assert_eq!(percentile, "fast")
        }
        other => panic!("expected an invalid percentile, got {:?}", other),
    }
}

#[test]
fn other_objectives_are_unknown() {
    match query_for_slo("availability", "api", &six_hours(), Some("0.99")) {
        Err(PrometheusServiceError::UnknownSlo(slo)) => assert_eq!(slo, "availability"),
        other => panic!("expected an unknown objective, got {:?}", other),
    }
    match query_for_slo("", "api", &six_hours(), None) {
        Err(PrometheusServiceError::UnknownSlo(slo)) => assert_eq!(slo, ""),
        other => panic!("expected an unknown objective, got {:?}", other),
    }
}

#[test]
fn latency_percentile_is_what_follows_the_prefix() {
    assert_eq!(latency_percentile("latency-99.9"), Some("99.9"));
    assert_eq!(latency_percentile("latency-"), Some(""));
    assert_eq!(latency_percentile("success-rate-99"), None);
    assert_eq!(latency_percentile("latency"), None);
}

#[test]
fn step_is_written_as_amount_and_unit() {
    assert_eq!(StepUnit::Hours.to_str(), "h");
    assert_eq!(StepUnit::Minutes.to_str(), "m");
    assert_eq!(StepUnit::Seconds.to_str(), "s");
    let step = |amount, unit| StepSize { amount, unit }.to_string();
    assert_eq!(step(30, StepUnit::Seconds), "30s");
    assert_eq!(step(3, StepUnit::Minutes), "3m");
    assert_eq!(step(0, StepUnit::Hours), "0h");
    assert_eq!(step(u32::MAX, StepUnit::Seconds), "4294967295s");
}

#[test]
fn range_request_goes_to_query_range_under_the_base() {
    let request = query_series(
        TimeseriesQuery {
            query: "up{job=\"api\"}".to_owned(),
            time_range: six_hours(),
        },
        &PrometheusServiceConfig::new_test_config(),
        StepSize {
            amount: 3,
            unit: StepUnit::Minutes,
        },
    )
    .unwrap();

    let form =
        "query=up%7Bjob%3D%22api%22%7D&start=1969-12-31T18%3A00%3A00Z&end=1970-01-01T00%3A00%3A00Z&step=3m";
    assert_eq!(request.body, form);
    assert_eq!(
        request.url,
        format!("http://localhost:9090/prometheus/api/v1/query_range?{form}")
    );
    assert_eq!(request.content_type, "application/x-www-form-urlencoded");
    assert_eq!(request.timeout_seconds, 15);
}

#[test]
fn range_request_on_a_base_without_path_is_a_config_error() {
    let config = PrometheusServiceConfig {
        prometheus_url: "mailto:metrics@example.com".to_owned(),
    };
    let refused = query_series(
        TimeseriesQuery {
            query: "up".to_owned(),
            time_range: six_hours(),
        },
        &config,
        StepSize {
            amount: 1,
            unit: StepUnit::Seconds,
        },
    );
    match refused {
        Err(PrometheusServiceError::Config(message)) => assert_eq!(
            message,
            "Cannot append to prometheus base URL: mailto:metrics@example.com"
        ),
        other => panic!("expected a config error, got {:?}", other),
    }
}

#[test]
fn service_builds_the_request_for_an_objective() {
    let service = PrometheusService::new(PrometheusServiceConfig::new_test_config());
    let step = StepSize {
        amount: 3,
        unit: StepUnit::Minutes,
    };
    let request = service
        .query_slo_timeseries("latency-95", "api", six_hours(), Some("0.95"), step)
        .unwrap();
    assert!(request
        .url
        .starts_with("http://localhost:9090/prometheus/api/v1/query_range?query=%0Alabel_replace"));
    assert!(request.body.ends_with("&step=3m"));

    assert!(matches!(
        service.query_slo_timeseries("other", "api", six_hours(), None, step),
        Err(PrometheusServiceError::UnknownSlo(_))
    ));
    assert!(matches!(
        service.query_slo_timeseries("latency-x", "api", six_hours(), None, step),
        Err(PrometheusServiceError::InvalidPercentile(_))
    ));
}

#[test]
fn metric_errors_have_messages() {
    assert_eq!(
        PrometheusServiceError::Config("c".to_owned()).message(),
        "Config error: c"
    );
    assert_eq!(
        PrometheusServiceError::Deserialization("d".to_owned()).message(),
        "Deserialization error: d"
    );
    assert_eq!(
        PrometheusServiceError::Http("h".to_owned()).message(),
        "HTTP request error: h"
    );
    assert_eq!(
        PrometheusServiceError::InvalidPercentile("p".to_owned()).message(),
        "Percentile error: p"
    );
    assert_eq!(
        PrometheusServiceError::UnknownSlo("s".to_owned()).message(),
        "Unrecognized SLO: s"
    );
    assert_eq!(
        PrometheusServiceError::from_parse_float_error("invalid float literal").message(),
        "Deserialization error: Could not parse number: invalid float literal"
    );
}

#[test]
fn series_name_is_taken_out_of_the_labels() {
    let metric = Labels::from_pairs(vec![
        ("__name__".to_owned(), "up".to_owned()),
        ("job".to_owned(), "api".to_owned()),
    ]);
    let (name, labels) = split_series_name(metric);
    assert_eq!(name, "up");
    assert_eq!(labels.get("__name__"), None);
    assert_eq!(labels.get("job"), Some("api"));

    let nameless = Labels::from_pairs(vec![("job".to_owned(), "api".to_owned())]);
    let (name, labels) = split_series_name(nameless);
    assert_eq!(name, "");
    assert_eq!(labels.get("job"), Some("api"));
}

#[test]
fn chart_is_named_after_the_end_of_the_range_and_the_objective() {
    assert_eq!(
        chart_filename("success-rate-99", &six_hours()),
        "1970-01-01T00:00:00Z-success-rate-99.png"
    );
    let with_nanos = TimeRange {
        from: Timestamp::from_unix_nanos(0),
        to: Timestamp::from_unix_nanos(1_700_000_000_123_000_000),
    };
    assert_eq!(
        chart_filename("latency-95", &with_nanos),
        "2023-11-14T22:13:20.123Z-latency-95.png"
    );
}

#[test]
fn values_are_written_by_the_kind_of_objective() {
    assert_eq!(y_formatter("latency-99"), FormatterKind::Duration);
    assert_eq!(y_formatter("success-rate-99"), FormatterKind::Percentage);
    assert_eq!(y_formatter("other"), FormatterKind::Exponent);

    let charts = ChartService::new(ChartServiceConfig::new_test_config());
    assert_eq!(charts.config.storage_dir, "/tmp");
    let options = charts.chart_options("latency-99");
    assert_eq!(options.width, 1180);
    assert_eq!(options.height, 400);
    assert!(!options.area_gradient_shown);
    assert!(options.axis_lines_shown);
    assert!(options.grid_columns_shown);
    assert!(options.grid_rows_shown);
    assert_eq!(options.shape_stroke_width, Some(4));
    assert_eq!(options.x_formatter, Some(FormatterKind::Time));
    assert_eq!(options.y_formatter, Some(FormatterKind::Duration));
    assert_eq!(GRID_STROKE_COLOR, "#e7e7e7");
    assert_eq!(TICK_COLOR, "#a4a4a4");
}

#[test]
fn shape_colors_come_round_again() {
    assert_eq!(SHAPE_COLOR_COUNT, 11);
    assert_eq!(get_shape_list_color(0), "#c00eae");
    assert_eq!(get_shape_list_color(1), "#23304a");
    assert_eq!(get_shape_list_color(10), "#4f18f4");
    assert_eq!(get_shape_list_color(11), "#c00eae");
    assert_eq!(get_shape_list_color(25), "#5f4509");
}

#[test]
fn chart_of_an_alert_is_found_by_its_row() {
    let mut service = Service::new(
        "http://localhost:3031".to_owned(),
        ChartServiceConfig::new_test_config(),
        Db::new(),
        EventBus::new(),
        None,
        PrometheusServiceConfig::new_test_config(),
        SlackServiceConfig::new_test_config(),
    );
    let now = Timestamp::from_unix_nanos(0);
    let mut tx = service.db.start_transaction().unwrap();
    let new_alert = |chart: Option<&str>| NewAlert {
        text: "Alert".to_owned(),
        resolved: false,
        fingerprint: None,
        chart_filename: chart.map(str::to_owned),
        slack_channel: None,
        slack_ts: None,
        sloth_slo: None,
        sloth_service: None,
        objective_name: None,
        severity: None,
    };
    let charted = service
        .db
        .alert_create(&mut tx, new_alert(Some("a.png")), now)
        .unwrap();
    let plain = service.db.alert_create(&mut tx, new_alert(None), now).unwrap();
    service.db.commit(tx).unwrap();

    assert_eq!(chart_file_of(&charted).unwrap(), "a.png");
    assert!(matches!(
        chart_file_of(&plain),
        Err(ChartHandlerError::NotFound)
    ));
    assert_eq!(charts_get(&mut service, 1).unwrap(), "a.png");
    assert!(matches!(
        charts_get(&mut service, 2),
        Err(ChartHandlerError::NotFound)
    ));
    assert!(matches!(
        charts_get(&mut service, 3),
        Err(ChartHandlerError::NotFound)
    ));
    assert_eq!(CHART_CONTENT_TYPE, "image/png");
    assert_eq!(ChartHandlerError::NotFound.status_code(), 404);
    assert_eq!(
        ChartHandlerError::from_io_error("gone".to_owned()).status_code(),
        500
    );
    assert_eq!(
        ChartHandlerError::from_io_error("gone".to_owned()).message(),
        "Cannot read file: gone"
    );
    assert_eq!(
        ChartHandlerError::from(slack_app::db::DbError::UnknownError).status_code(),
        502
    );
}

#[test]
fn decimal_notation() {
    let digits = |n: u64| {
        let mut out = String::from(">");
        push_decimal_digits(&mut out, n);
        out
    };
    assert_eq!(digits(0), ">0");
    assert_eq!(digits(9), ">9");
    assert_eq!(digits(10), ">10");
    assert_eq!(digits(1234567890), ">1234567890");
    assert_eq!(digits(u64::MAX), ">18446744073709551615");

    let signed = |i: i64| {
        let mut out = String::new();
        push_decimal(&mut out, i);
        out
    };
    assert_eq!(signed(0), "0");
    assert_eq!(signed(-1), "-1");
    assert_eq!(signed(42), "42");
    assert_eq!(signed(i64::MIN), "-9223372036854775808");
    assert_eq!(signed(i64::MAX), "9223372036854775807");
}

#[test]
fn prefixes() {
    assert!(has_prefix("latency-99", "latency-"));
    assert!(has_prefix("latency-", "latency-"));
    assert!(!has_prefix("latency", "latency-"));
    assert!(has_prefix("anything", ""));
    assert!(!has_prefix("", "x"));
    assert_eq!(strip_prefix("success-rate-99.9", "success-rate-"), Some("99.9"));
    assert_eq!(strip_prefix("süccess", "sü"), Some("ccess"));
    assert_eq!(strip_prefix("latency-99", "success-rate-"), None);
    assert!(text_eq("é", "é"));
    assert!(!text_eq("e", "é"));
}

#[test]
fn timestamps_are_written_by_the_calendar() {
    assert_eq!(
        Timestamp::from_unix_nanos(0).to_rfc3339(),
        "1970-01-01T00:00:00Z"
    );
    assert_eq!(
        Timestamp::from_unix_nanos(-62_167_219_200_000_000_000).to_rfc3339(),
        "0000-01-01T00:00:00Z"
    );
    assert_eq!(
        Timestamp::from_unix_nanos(253_402_300_799_999_999_999).to_rfc3339(),
        "9999-12-31T23:59:59.999999999Z"
    );
    assert_eq!(
        Timestamp::from_unix_nanos(1_700_000_000_500_000_000).to_text(),
        "2023-11-14 22:13:20.5 +00:00:00"
    );
    assert!(Timestamp::from_unix_nanos(0).is_printable());
    assert!(!Timestamp::from_unix_nanos(253_402_300_800_000_000_000).is_printable());
    assert!(!Timestamp::from_unix_nanos(-62_167_219_200_000_000_001).is_printable());
    assert_eq!(
        Timestamp::from_unix_nanos(0).six_hours_earlier(),
        Timestamp::from_unix_nanos(-21_600_000_000_000)
    );
}
