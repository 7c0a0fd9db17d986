use slack_app::db::models::{Alert, Timestamp};
use slack_app::service::slack::{
    build_message, can_build_message, get_explorer_alert_url, try_build_message, SlackBlock,
    SlackService, SlackServiceConfig, SlackServiceError,
};

fn service_url() -> String {
    "http://localhost:3031".to_owned()
}

fn prometheus_url() -> String {
    "http://localhost:9090/prometheus".to_owned()
}

fn explorer_url() -> String {
    "http://explorer.pmmp.dev".to_owned()
}

fn epoch_alert() -> Alert {
    let now = Timestamp::from_unix_nanos(0);
    Alert {
        id: 1234,
        text: "High Error Rate for \"api\" [environment=production]".to_owned(),
        resolved: false,
        fingerprint: None,
        chart_filename: None,
        sloth_service: None,
        sloth_slo: None,
        objective_name: Some("api".to_owned()),
        severity: None,
        slack_channel: None,
        slack_ts: None,
        created_at: now,
        updated_at: now,
    }
}

fn assert_head(blocks: &[SlackBlock], header: &str) {
    match &blocks[0] {
        SlackBlock::Header { text } => assert_eq!(text, header),
        other => panic!("expected a header, got {:?}", other),
    }
    match &blocks[1] {
        SlackBlock::Description {
            text,
            severity,
            created,
        } => {
            assert_eq!(text, "High Error Rate for \"api\" [environment=production]");
            assert_eq!(severity, "*Severity*\n:question: Unknown");
            assert_eq!(created, "*Created*\n1970-01-01 0:00:00.0 +00:00:00");
        }
        other => panic!("expected a description, got {:?}", other),
    }
}

#[test]
fn test_firing_alert_message() {
    let alert = epoch_alert();

    let message =
        build_message(&service_url(), &prometheus_url(), Some(&explorer_url()), &alert).unwrap();

    assert_eq!(message.color, "#F2303C");
    assert_eq!(message.blocks.len(), 2);
    assert_head(&message.blocks, ":rotating_light: Alert is firing");
}

#[test]
fn test_resolved_alert_message() {
    let alert = Alert {
        resolved: true,
        ..epoch_alert()
    };

    let message =
        build_message(&service_url(), &prometheus_url(), Some(&explorer_url()), &alert).unwrap();

    assert_eq!(message.color, "#2EC95A");
    assert_eq!(message.blocks.len(), 2);
    assert_head(&message.blocks, ":white_check_mark: Alert was resolved");
}

#[test]
fn test_alert_message_with_chart() {
    let alert = Alert {
        resolved: true,
        chart_filename: Some("1234.png".to_owned()),
        ..epoch_alert()
    };

    let message =
        build_message(&service_url(), &prometheus_url(), Some(&explorer_url()), &alert).unwrap();

    assert_eq!(message.color, "#2EC95A");
    assert_eq!(message.blocks.len(), 3);
    assert_head(&message.blocks, ":white_check_mark: Alert was resolved");
    match &message.blocks[2] {
        SlackBlock::Image {
            image_url,
            alt_text,
        } => {
            assert_eq!(image_url, "http://localhost:3031/api/chart/1234");
            assert_eq!(alt_text, "Chart for slo `unknown`");
        }
        other => panic!("expected an image, got {:?}", other),
    }
}

#[test]
fn test_alert_message_with_explorer_button() {
    let alert = Alert {
        resolved: true,
        chart_filename: Some("1234.png".to_owned()),
        sloth_service: Some("api".to_owned()),
        sloth_slo: Some("success-rate-99".to_owned()),
        ..epoch_alert()
    };

    let message =
        build_message(&service_url(), &prometheus_url(), Some(&explorer_url()), &alert).unwrap();

    assert_eq!(message.color, "#2EC95A");
    assert_eq!(message.blocks.len(), 4);
    assert_head(&message.blocks, ":white_check_mark: Alert was resolved");
    match &message.blocks[2] {
        SlackBlock::Image {
            image_url,
            alt_text,
        } => {
            assert_eq!(image_url, "http://localhost:3031/api/chart/1234");
            assert_eq!(alt_text, "Chart for slo `success-rate-99`");
        }
        other => panic!("expected an image, got {:?}", other),
    }
    match &message.blocks[3] {
        SlackBlock::Action {
            text,
            action_id,
            label,
            url,
        } => {
            assert_eq!(text, "Triage `success-rate-99` SLO in Explorer");
            assert_eq!(action_id, "open_in_explorer");
            assert_eq!(label, "Open");
            assert_eq!(
                url,
                "http://explorer.pmmp.dev/?prometheusUrl=http://localhost:9090/prometheus#/slos/api/successRate?from=1969-12-31T18:00:00Z&to=1970-01-01T00:00:00Z"
            );
        }
        other => panic!("expected an action, got {:?}", other),
    }
}

#[test]
fn explorer_url_needs_explorer_objective_and_known_kind() {
    let prometheus = prometheus_url();
    let explorer = explorer_url();
    let latency = Alert {
        sloth_slo: Some("latency-95".to_owned()),
        ..epoch_alert()
    };
    assert_eq!(
        get_explorer_alert_url(Some(&explorer), &prometheus, &latency).as_deref(),
        Some(
            "http://explorer.pmmp.dev/?prometheusUrl=http://localhost:9090/prometheus#/slos/api/latency?from=1969-12-31T18:00:00Z&to=1970-01-01T00:00:00Z"
        )
    );
    assert_eq!(get_explorer_alert_url(None, &prometheus, &latency), None);

    let other = Alert {
        sloth_slo: Some("other".to_owned()),
        ..epoch_alert()
    };
    assert_eq!(
        get_explorer_alert_url(Some(&explorer), &prometheus, &other),
        None
    );

    let nameless = Alert {
        sloth_slo: Some("latency-95".to_owned()),
        objective_name: None,
        ..epoch_alert()
    };
    assert_eq!(
        get_explorer_alert_url(Some(&explorer), &prometheus, &nameless),
        None
    );
}

#[test]
fn severity_field_names_page_ticket_and_others() {
    let severity_of = |severity: Option<&str>| {
        let alert = Alert {
            severity: severity.map(str::to_owned),
            ..epoch_alert()
        };
        let message = build_message(&service_url(), &prometheus_url(), None, &alert).unwrap();
        match &message.blocks[1] {
            SlackBlock::Description { severity, .. } => severity.clone(),
            other => panic!("expected a description, got {:?}", other),
        }
    };
    assert_eq!(severity_of(Some("page")), "*Severity*\n:pager: Page");
    assert_eq!(severity_of(Some("ticket")), "*Severity*\n:ticket: Ticket");
    assert_eq!(severity_of(Some("info")), "*Severity*\n:question: info");
    assert_eq!(severity_of(None), "*Severity*\n:question: Unknown");
}

#[test]
fn message_cannot_be_built_on_a_base_that_is_no_url() {
    let alert = Alert {
        chart_filename: Some("1234.png".to_owned()),
        ..epoch_alert()
    };
    let no_url = "not a url".to_owned();
    assert!(!can_build_message(&no_url, None, &alert));
    assert!(try_build_message(&no_url, &prometheus_url(), None, &alert).is_none());
    assert!(can_build_message(&service_url(), None, &alert));
    assert!(try_build_message(&service_url(), &prometheus_url(), None, &alert).is_some());

    let mailbox = "mailto:alerts@example.com".to_owned();
    assert!(!can_build_message(&mailbox, None, &alert));

    // without a chart the base is never read
    assert!(can_build_message(&no_url, None, &epoch_alert()));
}

#[test]
fn message_cannot_be_built_outside_the_printable_years() {
    let ancient = Alert {
        created_at: Timestamp::from_unix_nanos(-62_167_219_200_000_000_001),
        ..epoch_alert()
    };
    assert!(!can_build_message(&service_url(), None, &ancient));

    // the first instant of year 0 can be written, but not six hours before it
    let first = Alert {
        created_at: Timestamp::from_unix_nanos(-62_167_219_200_000_000_000),
        sloth_slo: Some("latency-95".to_owned()),
        ..epoch_alert()
    };
    assert!(can_build_message(&service_url(), None, &first));
    assert!(!can_build_message(
        &service_url(),
        Some(&explorer_url()),
        &first
    ));
}

fn slack() -> SlackService {
    SlackService::new(
        service_url(),
        SlackServiceConfig::new_test_config(),
        prometheus_url(),
        Some(explorer_url()),
    )
}

#[test]
fn send_alert_posts_to_the_configured_channel() {
    let request = slack().send_alert(&epoch_alert()).unwrap();
    assert_eq!(request.channel, "test-channel");
    assert_eq!(request.content.color, "#F2303C");
    assert_eq!(request.content.blocks.len(), 2);

    assert!(slack().try_send_alert(&epoch_alert()).is_some());
}

#[test]
fn update_alert_without_timestamp_is_missing_timestamp() {
    let never_posted = epoch_alert();
    assert!(matches!(
        slack().update_alert(&never_posted),
        Err(SlackServiceError::MissingTimestamp)
    ));
    assert!(matches!(
        slack().try_update_alert(&never_posted),
        Some(Err(SlackServiceError::MissingTimestamp))
    ));
    assert_eq!(
        SlackServiceError::MissingTimestamp.message(),
        "Cannot update message without timestamp"
    );
    assert_eq!(
        SlackServiceError::from_client_error("timeout".to_owned()).message(),
        "Config error: timeout"
    );
}

#[test]
fn update_alert_goes_to_the_channel_of_the_post() {
    let posted = Alert {
        resolved: true,
        slack_channel: Some("C024BE91L".to_owned()),
        slack_ts: Some("1503435956.000247".to_owned()),
        ..epoch_alert()
    };
    let request = slack().update_alert(&posted).unwrap();
    assert_eq!(request.channel, "C024BE91L");
    assert_eq!(request.ts, "1503435956.000247");
    assert!(request.as_user);
    assert_eq!(request.content.color, "#2EC95A");

    let without_channel = Alert {
        slack_channel: None,
        slack_ts: Some("1503435956.000247".to_owned()),
        ..epoch_alert()
    };
    let request = slack().update_alert(&without_channel).unwrap();
    assert_eq!(request.channel, "test-channel");
}

#[test]
fn explorer_url_is_not_built_from_oversized_parts() {
    let explorer = explorer_url();
    let latency = Alert {
        sloth_slo: Some("latency-95".to_owned()),
        ..epoch_alert()
    };
    let long = "a".repeat(0x0400_0001);
    assert_eq!(get_explorer_alert_url(Some(&explorer), &long, &latency), None);
    assert_eq!(
        get_explorer_alert_url(Some(&long), &prometheus_url(), &latency),
        None
    );
}
