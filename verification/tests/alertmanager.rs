use slack_app::db::models::Timestamp;
use slack_app::db::Db;
use slack_app::events::{Event, EventBus};
use slack_app::service::alertmanager::handlers::{plan_delivery, receive_alertmanager_webhook, Delivery};
use slack_app::service::alertmanager::labels::Labels;
use slack_app::service::alertmanager::{
    create_alert_text, get_label, AlertStatus, AlertmanagerAlert, AlertmanagerWebhookHandlerError,
    AlertmanagerWebhookPayload,
};
use slack_app::service::{
    ChartServiceConfig, PrometheusServiceConfig, Service, SlackServiceConfig,
};

fn now() -> Timestamp {
    Timestamp::from_unix_nanos(1_700_000_000_000_000_000)
}

fn service_setup() -> Service {
    Service::new(
        "http://localhost:3031".to_owned(),
        ChartServiceConfig::new_test_config(),
        Db::new(),
        EventBus::new(),
        Some("http://explorer.pmmp.dev".to_owned()),
        PrometheusServiceConfig::new_test_config(),
        SlackServiceConfig::new_test_config(),
    )
}

fn labels(pairs: &[(&str, &str)]) -> Labels {
    Labels::from_pairs(
        pairs
            .iter()
            .map(|(k, v)| (k.to_string(), v.to_string()))
            .collect(),
    )
}

fn alert(fingerprint: &str, status: AlertStatus, alert_labels: Labels) -> AlertmanagerAlert {
    AlertmanagerAlert {
        fingerprint: fingerprint.to_owned(),
        generator_url: Default::default(),
        annotations: Labels::new(),
        labels: alert_labels,
        status,
        starts_at: now(),
        ends_at: now(),
    }
}

fn payload(alerts: Vec<AlertmanagerAlert>, status: AlertStatus) -> AlertmanagerWebhookPayload {
    AlertmanagerWebhookPayload {
        alerts,
        status,
        version: "4".to_string(),
        ..Default::default()
    }
}

fn stored(service: &Service, fingerprint: &str) -> Option<slack_app::db::models::Alert> {
    let mut tx = service.db.start_transaction().unwrap();
    service
        .db
        .alert_get_by_fingerprint(&mut tx, fingerprint)
        .unwrap()
}

#[test]
fn alerts_create_new_unresolved() {
    let mut service = service_setup();
    let payload = payload(
        vec![alert("12345", AlertStatus::Firing, Labels::new())],
        AlertStatus::Firing,
    );

    receive_alertmanager_webhook(&mut service, payload, now())
        .expect("Error receiving firing alert");

    let alert = stored(&service, "12345");
    assert!(matches!(alert, Some(row) if !row.resolved));
}

#[test]
fn alerts_create_new_resolved() {
    let mut service = service_setup();
    let payload = payload(
        vec![alert("23456", AlertStatus::Resolved, Labels::new())],
        AlertStatus::Resolved,
    );

    receive_alertmanager_webhook(&mut service, payload, now())
        .expect("Error receiving resolved alert");

    let alert = stored(&service, "23456");
    assert!(matches!(alert, Some(row) if row.resolved));
}

#[test]
fn alerts_create_and_update() {
    let mut service = service_setup();
    let original = payload(
        vec![alert("34567", AlertStatus::Firing, Labels::new())],
        AlertStatus::Firing,
    );
    receive_alertmanager_webhook(&mut service, original, now())
        .expect("Error receiving original alert");

    let updated = payload(
        vec![alert("34567", AlertStatus::Resolved, Labels::new())],
        AlertStatus::Firing,
    );
    receive_alertmanager_webhook(&mut service, updated, now())
        .expect("Error receiving updated alert");

    let alert = stored(&service, "34567");
    assert!(matches!(alert, Some(row) if row.resolved));
}

#[test]
fn test_alert_text_instance_down() {
    let payload = payload(
        vec![alert(
            "34567",
            Default::default(),
            labels(&[
                ("alertname", "InstanceDown"),
                ("kubernetes_pod_name", "fluentd-1234"),
                ("environment", "production"),
            ]),
        )],
        Default::default(),
    );

    let text = create_alert_text(&payload.alerts[0], &payload);

    assert_eq!(
        text,
        "Instance \"fluentd-1234\" down [environment=production]"
    );
}

#[test]
fn test_alert_text_success_rate() {
    let payload = payload(
        vec![alert(
            "34567",
            Default::default(),
            labels(&[
                ("category", "success-rate"),
                ("sloth_service", "api"),
                ("environment", "production"),
            ]),
        )],
        Default::default(),
    );

    let text = create_alert_text(&payload.alerts[0], &payload);

    assert_eq!(text, "High Error Rate for \"api\" [environment=production]");
}

#[test]
fn test_alert_text_unknown_slo() {
    let payload = payload(
        vec![alert(
            "34567",
            Default::default(),
            labels(&[
                ("sloth_slo", "other"),
                ("sloth_service", "slack-app"),
                ("environment", "dev"),
            ]),
        )],
        Default::default(),
    );

    let text = create_alert_text(&payload.alerts[0], &payload);

    assert_eq!(
        text,
        "SLO \"other\" in danger for \"slack-app\" [environment=dev]"
    );
}

#[test]
fn alert_text_summary_annotation_wins() {
    let mut one = alert(
        "1",
        AlertStatus::Firing,
        labels(&[("alertname", "InstanceDown"), ("environment", "dev")]),
    );
    one.annotations = labels(&[("summary", "Disk almost full")]);
    let payload = payload(vec![one], AlertStatus::Firing);

    assert_eq!(
        create_alert_text(&payload.alerts[0], &payload),
        "Disk almost full"
    );
}

#[test]
fn alert_text_instance_falls_back_to_instance_then_unknown() {
    let with_instance = payload(
        vec![alert(
            "1",
            AlertStatus::Firing,
            labels(&[("alertname", "InstanceDown"), ("instance", "10.0.0.7:9100")]),
        )],
        AlertStatus::Firing,
    );
    assert_eq!(
        create_alert_text(&with_instance.alerts[0], &with_instance),
        "Instance \"10.0.0.7:9100\" down"
    );

    let without = payload(
        vec![alert(
            "1",
            AlertStatus::Firing,
            labels(&[("alertname", "InstanceDown")]),
        )],
        AlertStatus::Firing,
    );
    assert_eq!(
        create_alert_text(&without.alerts[0], &without),
        "Instance \"unknown\" down"
    );
}

#[test]
fn alert_text_latency_and_plain() {
    let latency = payload(
        vec![alert(
            "1",
            AlertStatus::Firing,
            labels(&[("category", "latency"), ("sloth_slo", "latency-99")]),
        )],
        AlertStatus::Firing,
    );
    assert_eq!(
        create_alert_text(&latency.alerts[0], &latency),
        "High Latency"
    );

    let plain = payload(
        vec![alert("1", AlertStatus::Firing, Labels::new())],
        AlertStatus::Firing,
    );
    assert_eq!(create_alert_text(&plain.alerts[0], &plain), "Alert");
}

#[test]
fn labels_fall_back_to_common_labels() {
    let mut batch = payload(
        vec![alert(
            "1",
            AlertStatus::Firing,
            labels(&[("environment", "staging")]),
        )],
        AlertStatus::Firing,
    );
    batch.common_labels = labels(&[("environment", "production"), ("sloth_service", "api")]);

    assert_eq!(
        get_label(&batch.alerts[0], &batch, "environment"),
        Some("staging")
    );
    assert_eq!(
        get_label(&batch.alerts[0], &batch, "sloth_service"),
        Some("api")
    );
    assert_eq!(get_label(&batch.alerts[0], &batch, "severity"), None);
    assert_eq!(
        create_alert_text(&batch.alerts[0], &batch),
        "Alert for \"api\" [environment=staging]"
    );
}

#[test]
fn labels_later_pair_replaces_earlier() {
    let set = labels(&[("a", "1"), ("b", "2"), ("a", "3")]);
    assert_eq!(set.get("a"), Some("3"));
    assert_eq!(set.get("b"), Some("2"));
    assert_eq!(set.get("c"), None);

    let mut grown = set.clone();
    grown.insert("c".to_owned(), "4".to_owned());
    grown.insert("b".to_owned(), "5".to_owned());
    assert_eq!(grown.get("b"), Some("5"));
    assert_eq!(grown.get("c"), Some("4"));
    assert_eq!(set.get("b"), Some("2"));
}

#[test]
fn status_is_resolved() {
    assert!(AlertStatus::Resolved.is_resolved());
    assert!(!AlertStatus::Firing.is_resolved());
    assert_eq!(AlertStatus::default(), AlertStatus::Firing);
}

#[test]
fn unexpected_version_is_refused() {
    let mut service = service_setup();
    let mut batch = payload(
        vec![alert("1", AlertStatus::Firing, Labels::new())],
        AlertStatus::Firing,
    );
    batch.version = "3".to_owned();

    let refused = receive_alertmanager_webhook(&mut service, batch, now());

    match refused {
        Err(AlertmanagerWebhookHandlerError::UnexpectedVersion(version)) => {
            assert_eq!(version, "3")
        }
        other => panic!("expected a version error, got {:?}", other),
    }
    assert!(stored(&service, "1").is_none());
    assert_eq!(service.event_sender.len(), 0);
}

#[test]
fn first_sighting_creates_row_and_event() {
    let mut service = service_setup();
    let batch = payload(
        vec![alert(
            "F1",
            AlertStatus::Firing,
            labels(&[
                ("sloth_slo", "success-rate-99"),
                ("sloth_service", "api"),
                ("objective_name", "api"),
                ("severity", "page"),
            ]),
        )],
        AlertStatus::Firing,
    );

    let body = receive_alertmanager_webhook(&mut service, batch, now()).unwrap();
    assert_eq!(body, "ok");

    let row = stored(&service, "F1").unwrap();
    assert_eq!(row.id, 1);
    assert_eq!(row.text, "SLO \"success-rate-99\" in danger for \"api\"");
    assert_eq!(row.fingerprint.as_deref(), Some("F1"));
    assert_eq!(row.sloth_slo.as_deref(), Some("success-rate-99"));
    assert_eq!(row.sloth_service.as_deref(), Some("api"));
    assert_eq!(row.objective_name.as_deref(), Some("api"));
    assert_eq!(row.severity.as_deref(), Some("page"));
    assert_eq!(row.chart_filename, None);
    assert_eq!(row.slack_channel, None);
    assert_eq!(row.slack_ts, None);
    assert_eq!(row.created_at, now());
    assert_eq!(row.updated_at, now());

    assert_eq!(service.event_sender.len(), 1);
    match service.event_sender.recv() {
        Some(Event::CreateChartAndPostToSlack { alert }) => {
            assert_eq!(alert.id, 1);
            assert_eq!(alert.fingerprint.as_deref(), Some("F1"));
        }
        other => panic!("expected a chart event, got {:?}", other),
    }
}

#[test]
fn same_delivery_twice_is_a_no_op() {
    let mut service = service_setup();
    let first = payload(
        vec![alert("F1", AlertStatus::Firing, Labels::new())],
        AlertStatus::Firing,
    );
    receive_alertmanager_webhook(&mut service, first, now()).unwrap();
    assert_eq!(service.event_sender.len(), 1);
    let before = stored(&service, "F1").unwrap();

    let later = Timestamp::from_unix_nanos(1_700_000_060_000_000_000);
    let second = payload(
        vec![alert("F1", AlertStatus::Firing, Labels::new())],
        AlertStatus::Firing,
    );
    receive_alertmanager_webhook(&mut service, second, later).unwrap();

    assert_eq!(service.event_sender.len(), 1);
    let after = stored(&service, "F1").unwrap();
    assert_eq!(after.id, before.id);
    assert_eq!(after.updated_at, before.updated_at);
    assert!(!after.resolved);
}

#[test]
fn same_fingerprint_never_makes_two_rows() {
    let mut service = service_setup();
    let batch = payload(
        vec![
            alert("F1", AlertStatus::Firing, Labels::new()),
            alert("F2", AlertStatus::Firing, Labels::new()),
            alert("F1", AlertStatus::Resolved, Labels::new()),
        ],
        AlertStatus::Firing,
    );
    receive_alertmanager_webhook(&mut service, batch, now()).unwrap();

    let first = stored(&service, "F1").unwrap();
    let second = stored(&service, "F2").unwrap();
    assert_eq!(first.id, 1);
    assert_eq!(second.id, 2);
    assert!(first.resolved);

    // create F1, create F2, update F1
    assert_eq!(service.event_sender.len(), 3);
    assert!(matches!(
        service.event_sender.recv(),
        Some(Event::CreateChartAndPostToSlack { alert }) if alert.id == 1
    ));
    assert!(matches!(
        service.event_sender.recv(),
        Some(Event::CreateChartAndPostToSlack { alert }) if alert.id == 2
    ));
    assert!(matches!(
        service.event_sender.recv(),
        Some(Event::UpdateSlackAlert { alert_id: 1 })
    ));

    let mut tx = service.db.start_transaction().unwrap();
    assert!(service.db.alert_get(&mut tx, 3).is_err());
}

#[test]
fn resolution_round_trip() {
    let mut service = service_setup();
    receive_alertmanager_webhook(
        &mut service,
        payload(
            vec![alert("F1", AlertStatus::Firing, Labels::new())],
            AlertStatus::Firing,
        ),
        now(),
    )
    .unwrap();
    assert!(matches!(
        service.event_sender.recv(),
        Some(Event::CreateChartAndPostToSlack { .. })
    ));

    let later = Timestamp::from_unix_nanos(1_700_000_060_000_000_000);
    receive_alertmanager_webhook(
        &mut service,
        payload(
            vec![alert("F1", AlertStatus::Resolved, Labels::new())],
            AlertStatus::Resolved,
        ),
        later,
    )
    .unwrap();
    let row = stored(&service, "F1").unwrap();
    assert!(row.resolved);
    assert_eq!(row.created_at, now());
    assert_eq!(row.updated_at, later);
    assert!(matches!(
        service.event_sender.recv(),
        Some(Event::UpdateSlackAlert { alert_id: 1 })
    ));
    assert_eq!(service.event_sender.len(), 0);

    receive_alertmanager_webhook(
        &mut service,
        payload(
            vec![alert("F1", AlertStatus::Resolved, Labels::new())],
            AlertStatus::Resolved,
        ),
        later,
    )
    .unwrap();
    assert_eq!(service.event_sender.len(), 0);
}

#[test]
fn closed_bus_abandons_the_batch() {
    let mut service = service_setup();
    service.event_sender.close();

    let refused = receive_alertmanager_webhook(
        &mut service,
        payload(
            vec![alert("F1", AlertStatus::Firing, Labels::new())],
            AlertStatus::Firing,
        ),
        now(),
    );

    assert!(matches!(
        refused,
        Err(AlertmanagerWebhookHandlerError::ChannelClosed)
    ));
    assert!(stored(&service, "F1").is_none());
    assert_eq!(service.event_sender.len(), 0);
}

#[test]
fn empty_batch_is_accepted() {
    let mut service = service_setup();
    let body =
        receive_alertmanager_webhook(&mut service, payload(vec![], AlertStatus::Firing), now())
            .unwrap();
    assert_eq!(body, "ok");
    assert_eq!(service.event_sender.len(), 0);
}

#[test]
fn plan_delivery_decides_by_the_stored_row() {
    let mut service = service_setup();
    let batch = payload(
        vec![alert("F1", AlertStatus::Firing, Labels::new())],
        AlertStatus::Firing,
    );
    assert!(matches!(
        plan_delivery(None, &batch.alerts[0], &batch),
        Delivery::Create { new_alert } if new_alert.fingerprint.as_deref() == Some("F1")
            && !new_alert.resolved && new_alert.text == "Alert"
    ));

    receive_alertmanager_webhook(
        &mut service,
        payload(
            vec![alert("F1", AlertStatus::Firing, Labels::new())],
            AlertStatus::Firing,
        ),
        now(),
    )
    .unwrap();
    let row = stored(&service, "F1").unwrap();
    assert!(matches!(
        plan_delivery(Some(row.clone()), &batch.alerts[0], &batch),
        Delivery::Unchanged
    ));

    let resolved = payload(
        vec![alert("F1", AlertStatus::Resolved, Labels::new())],
        AlertStatus::Resolved,
    );
    assert!(matches!(
        plan_delivery(Some(row), &resolved.alerts[0], &resolved),
        Delivery::Update { alert } if alert.resolved && alert.id == 1
    ));
}

#[test]
fn intake_errors_have_status_and_message() {
    assert_eq!(
        AlertmanagerWebhookHandlerError::ChannelClosed.status_code(),
        500
    );
    assert_eq!(AlertmanagerWebhookHandlerError::NotFound.status_code(), 404);
    assert_eq!(
        AlertmanagerWebhookHandlerError::UnexpectedVersion("3".to_owned()).status_code(),
        400
    );
    assert_eq!(
        AlertmanagerWebhookHandlerError::from(slack_app::db::DbError::InconsistentState)
            .status_code(),
        502
    );
    assert!(matches!(
        AlertmanagerWebhookHandlerError::from(slack_app::db::DbError::NotFound),
        AlertmanagerWebhookHandlerError::NotFound
    ));
    assert_eq!(
        AlertmanagerWebhookHandlerError::ChannelClosed.message(),
        "Cannot send message to channel"
    );
    assert_eq!(
        AlertmanagerWebhookHandlerError::from(slack_app::db::DbError::InconsistentState).message(),
        "Database error: inconsistent state"
    );
}

#[test]
fn labels_remove_and_pairs() {
    let mut set = labels(&[("a", "1"), ("b", "2"), ("a", "3")]);
    let mut pairs = set.to_pairs();
    pairs.sort();
    assert_eq!(
        pairs,
        vec![
            ("a".to_owned(), "3".to_owned()),
            ("b".to_owned(), "2".to_owned())
        ]
    );
    assert_eq!(set.remove("a"), Some("3".to_owned()));
    assert_eq!(set.remove("a"), None);
    assert_eq!(set.get("a"), None);
    assert_eq!(set.get("b"), Some("2"));
    assert_eq!(set.to_pairs(), vec![("b".to_owned(), "2".to_owned())]);
    assert!(Labels::new().to_pairs().is_empty());
}
