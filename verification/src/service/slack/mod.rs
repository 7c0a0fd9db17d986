//! The chat service: what an alert's message says, and the requests that
//! post and update it.
pub mod errors;

pub use errors::SlackServiceError;

use vstd::prelude::*;
use vstd::string::*;
use crate::calendar::{date_time_text, rfc3339_text, SIX_HOURS_NANOS};
use crate::db::models::{Alert, AlertView};
use crate::text::{decimal, has_prefix, opt_text, push_decimal, text_eq};
use crate::urls::{join, replace_fragment, replace_query, url_joined, with_fragment, with_query};

verus! {

/// Where alerts are posted.
#[derive(Debug)]
pub struct SlackServiceConfig {
    /// The channel that alerts are posted to.
    pub channel: String,
}

impl SlackServiceConfig {
    /// A configuration for trials: it posts to `test-channel`.
    pub fn new_test_config() -> (config: SlackServiceConfig)
        ensures
            config.channel@ == "test-channel"@,
    {
        SlackServiceConfig { channel: "test-channel".to_owned() }
    }
}

/// One block of a message.
#[derive(Debug)]
pub enum SlackBlock {
    /// A line of plain text, emoji names written out.
    Header { text: String },
    /// The alert's text, with two fields below it.
    Description { text: String, severity: String, created: String },
    /// The alert's chart.
    Image { image_url: String, alt_text: String },
    /// A line of text beside a button that opens `url`.
    Action { text: String, action_id: String, label: String, url: String },
}

/// The abstract value of a [`SlackBlock`].
pub enum SlackBlockView {
    Header { text: Seq<char> },
    Description { text: Seq<char>, severity: Seq<char>, created: Seq<char> },
    Image { image_url: Seq<char>, alt_text: Seq<char> },
    Action { text: Seq<char>, action_id: Seq<char>, label: Seq<char>, url: Seq<char> },
}

impl View for SlackBlock {
    type V = SlackBlockView;

    open spec fn view(&self) -> SlackBlockView {
        match self {
            SlackBlock::Header { text } => SlackBlockView::Header { text: text@ },
            SlackBlock::Description { text, severity, created } => SlackBlockView::Description {
                text: text@,
                severity: severity@,
                created: created@,
            },
            SlackBlock::Image { image_url, alt_text } => SlackBlockView::Image {
                image_url: image_url@,
                alt_text: alt_text@,
            },
            SlackBlock::Action { text, action_id, label, url } => SlackBlockView::Action {
                text: text@,
                action_id: action_id@,
                label: label@,
                url: url@,
            },
        }
    }
}

/// The blocks as abstract values.
pub open spec fn blocks_view(blocks: Seq<SlackBlock>) -> Seq<SlackBlockView> {
    Seq::new(blocks.len(), |i: int| blocks[i]@)
}

/// The abstract value of a [`SlackMessageContent`].
pub struct SlackMessageView {
    pub color: Seq<char>,
    pub blocks: Seq<SlackBlockView>,
}

/// What a message says: one attachment of blocks beside a coloured bar.
#[derive(Debug)]
pub struct SlackMessageContent {
    pub color: String,
    pub blocks: Vec<SlackBlock>,
}

impl View for SlackMessageContent {
    type V = SlackMessageView;

    open spec fn view(&self) -> SlackMessageView {
        SlackMessageView { color: self.color@, blocks: blocks_view(self.blocks@) }
    }
}

/// The text of an optional string behind a reference.
pub open spec fn opt_ref(o: Option<&String>) -> Option<Seq<char>> {
    match o {
        Some(s) => Some(s@),
        None => None,
    }
}

/// Green for a resolved alert, red for a firing one.
pub open spec fn message_color(resolved: bool) -> Seq<char> {
    if resolved {
        "#2EC95A"@
    } else {
        "#F2303C"@
    }
}

pub open spec fn header_text(resolved: bool) -> Seq<char> {
    if resolved {
        ":white_check_mark: Alert was resolved"@
    } else {
        ":rotating_light: Alert is firing"@
    }
}

pub open spec fn severity_text(severity: Option<Seq<char>>) -> Seq<char> {
    match severity {
        Some(s) => if s == "page"@ {
            ":pager: Page"@
        } else if s == "ticket"@ {
            ":ticket: Ticket"@
        } else {
            ":question: "@ + s
        },
        None => ":question: Unknown"@,
    }
}

/// The objective's name, or `unknown`.
pub open spec fn slo_name(slo: Option<Seq<char>>) -> Seq<char> {
    match slo {
        Some(s) => s,
        None => "unknown"@,
    }
}

/// The path under which the chart of the alert `id` is served.
pub open spec fn chart_path(id: int) -> Seq<char> {
    "/api/chart/"@ + decimal(id)
}

/// The name of the explorer's view for an objective of this kind.
pub open spec fn explorer_metric(slo: Seq<char>) -> Option<Seq<char>> {
    if "success-rate-"@.is_prefix_of(slo) {
        Some("successRate"@)
    } else if "latency-"@.is_prefix_of(slo) {
        Some("latency"@)
    } else {
        None
    }
}

/// Whether a link to the explorer is in order: the explorer's address is
/// known and the alert names an objective of a known kind.
pub open spec fn explorer_applies(base_url: Option<Seq<char>>, alert: AlertView) -> bool {
    &&& base_url is Some
    &&& alert.sloth_slo matches Some(slo)
    &&& alert.objective_name is Some
    &&& explorer_metric(slo) is Some
}

/// The fragment that selects the alert's objective over the six hours up
/// to the alert's creation.
pub open spec fn explorer_fragment(objective_name: Seq<char>, metric: Seq<char>, created_at: int) -> Seq<char> {
    "/slos/"@ + objective_name + "/"@ + metric + "?from="@ + rfc3339_text(
        created_at - SIX_HOURS_NANOS,
    ) + "&to="@ + rfc3339_text(created_at)
}

/// The address of the alert in the explorer.
pub open spec fn explorer_alert_url(
    base_url: Option<Seq<char>>,
    prometheus_url: Seq<char>,
    alert: AlertView,
) -> Option<Seq<char>> {
    if explorer_applies(base_url, alert) {
        match with_query(base_url->0, "prometheusUrl="@ + prometheus_url) {
            Some(with_query) => with_fragment(
                with_query,
                explorer_fragment(
                    alert.objective_name->0,
                    explorer_metric(alert.sloth_slo->0)->0,
                    alert.created_at,
                ),
            ),
            None => None,
        }
    } else {
        None
    }
}

/// The instants that the explorer's link names can be written: they lie in
/// the years 0000 to 9999.
pub open spec fn explorer_range_printable(alert: &Alert) -> bool {
    alert.created_at.printable() && alert.created_at.spec_six_hours_earlier().printable()
}

/// Returns the URL to link to the explorer for a given alert.
pub fn get_explorer_alert_url(base_url: Option<&String>, prometheus_url: &String, alert: &Alert) -> (url:
    Option<String>)
    requires
        explorer_applies(opt_ref(base_url), alert@) ==> explorer_range_printable(alert),
    ensures
        opt_text(url) == explorer_alert_url(opt_ref(base_url), prometheus_url@, alert@),
{
    match (base_url, &alert.sloth_slo, &alert.objective_name) {
        (Some(base_url), Some(slo), Some(objective_name)) => {
            let metric: &str = if has_prefix(slo.as_str(), "success-rate-") {
                "successRate"
            } else if has_prefix(slo.as_str(), "latency-") {
                "latency"
            } else {
                return None;
            };
            let from: String = alert.created_at.six_hours_earlier().to_rfc3339();
            let to: String = alert.created_at.to_rfc3339();
            let mut query: String = "prometheusUrl=".to_owned();
            query.append(prometheus_url.as_str());
            let mut fragment: String = "/slos/".to_owned();
            fragment.append(objective_name.as_str());
            fragment.append("/");
            fragment.append(metric);
            fragment.append("?from=");
            fragment.append(from.as_str());
            fragment.append("&to=");
            fragment.append(to.as_str());
            match replace_query(base_url.as_str(), query.as_str()) {
                Some(with_query) => replace_fragment(with_query.as_str(), fragment.as_str()),
                None => None,
            }
        },
        _ => None,
    }
}

/// The blocks of the message about `alert`: a header, the description, the
/// chart if there is one, and the link to the explorer if one is in order.
pub open spec fn message_blocks(
    service_base_url: Seq<char>,
    prometheus_url: Seq<char>,
    explorer_url: Option<Seq<char>>,
    alert: AlertView,
) -> Seq<SlackBlockView> {
    let head = seq![
        SlackBlockView::Header { text: header_text(alert.resolved) },
        SlackBlockView::Description {
            text: alert.text,
            severity: "*Severity*\n"@ + severity_text(alert.severity),
            created: "*Created*\n"@ + date_time_text(alert.created_at),
        },
    ];
    let chart = if alert.chart_filename is Some {
        seq![
            SlackBlockView::Image {
                image_url: url_joined(service_base_url, chart_path(alert.id))->0,
                alt_text: "Chart for slo `"@ + slo_name(alert.sloth_slo) + "`"@,
            },
        ]
    } else {
        Seq::empty()
    };
    let action = match explorer_alert_url(explorer_url, prometheus_url, alert) {
        Some(url) => seq![
            SlackBlockView::Action {
                text: "Triage `"@ + slo_name(alert.sloth_slo) + "` SLO in Explorer"@,
                action_id: "open_in_explorer"@,
                label: "Open"@,
                url,
            },
        ],
        None => Seq::empty(),
    };
    head + chart + action
}

/// The message about `alert`.
pub open spec fn message_for(
    service_base_url: Seq<char>,
    prometheus_url: Seq<char>,
    explorer_url: Option<Seq<char>>,
    alert: AlertView,
) -> SlackMessageView {
    SlackMessageView {
        color: message_color(alert.resolved),
        blocks: message_blocks(service_base_url, prometheus_url, explorer_url, alert),
    }
}

/// Whether the message about `alert` can be written: its instants can be
/// written, and its chart, if it has one, has an address under the
/// service's own.
pub open spec fn message_buildable(
    service_base_url: Seq<char>,
    explorer_url: Option<Seq<char>>,
    alert: &Alert,
) -> bool {
    &&& alert.created_at.printable()
    &&& explorer_applies(explorer_url, alert@) ==> explorer_range_printable(alert)
    &&& alert.chart_filename is Some ==> url_joined(service_base_url, chart_path(alert@.id)) is Some
}

fn chart_path_text(id: i64) -> (path: String)
    ensures
        path@ == chart_path(id as int),
{
    let mut path: String = "/api/chart/".to_owned();
    push_decimal(&mut path, id);
    path
}

fn severity_line(severity: &Option<String>) -> (line: String)
    ensures
        line@ == "*Severity*\n"@ + severity_text(opt_text(*severity)),
{
    let mut line: String = "*Severity*\n".to_owned();
    match severity {
        Some(s) => {
            if text_eq(s.as_str(), "page") {
                line.append(":pager: Page");
            } else if text_eq(s.as_str(), "ticket") {
                line.append(":ticket: Ticket");
            } else {
                line.append(":question: ");
                line.append(s.as_str());
                assert(line@ =~= "*Severity*\n"@ + (":question: "@ + s@));
            }
        },
        None => {
            line.append(":question: Unknown");
        },
    }
    line
}

fn slo_name_text(slo: &Option<String>) -> (name: &str)
    ensures
        name@ == slo_name(opt_text(*slo)),
{
    match slo {
        Some(s) => s.as_str(),
        None => "unknown",
    }
}

/// Writes the message about `alert`.
pub fn build_message(
    service_base_url: &String,
    prometheus_url: &String,
    explorer_url: Option<&String>,
    alert: &Alert,
) -> (built: Result<SlackMessageContent, SlackServiceError>)
    requires
        message_buildable(service_base_url@, opt_ref(explorer_url), alert),
    ensures
        built matches Ok(content) && content@ == message_for(
            service_base_url@,
            prometheus_url@,
            opt_ref(explorer_url),
            alert@,
        ),
{
    let ghost explorer = opt_ref(explorer_url);
    let color: String = if alert.resolved {
        "#2EC95A".to_owned()
    } else {
        "#F2303C".to_owned()
    };
    let header: String = if alert.resolved {
        ":white_check_mark: Alert was resolved".to_owned()
    } else {
        ":rotating_light: Alert is firing".to_owned()
    };
    let mut created: String = "*Created*\n".to_owned();
    let when: String = alert.created_at.to_text();
    created.append(when.as_str());
    let mut blocks: Vec<SlackBlock> = Vec::new();
    blocks.push(SlackBlock::Header { text: header });
    blocks.push(
        SlackBlock::Description {
            text: alert.text.clone(),
            severity: severity_line(&alert.severity),
            created,
        },
    );
    let ghost head = blocks_view(blocks@);
    if alert.chart_filename.is_some() {
        let path: String = chart_path_text(alert.id);
        let image_url: String = join(service_base_url.as_str(), path.as_str()).unwrap();
        let mut alt_text: String = "Chart for slo `".to_owned();
        alt_text.append(slo_name_text(&alert.sloth_slo));
        alt_text.append("`");
        blocks.push(SlackBlock::Image { image_url, alt_text });
    }
    let ghost with_chart = blocks_view(blocks@);
    if let Some(url) = get_explorer_alert_url(explorer_url, prometheus_url, alert) {
        let mut text: String = "Triage `".to_owned();
        text.append(slo_name_text(&alert.sloth_slo));
        text.append("` SLO in Explorer");
        blocks.push(
            SlackBlock::Action {
                text,
                action_id: "open_in_explorer".to_owned(),
                label: "Open".to_owned(),
                url,
            },
        );
    }
    let content = SlackMessageContent { color, blocks };
    assert(content@.blocks =~= message_blocks(
        service_base_url@,
        prometheus_url@,
        explorer,
        alert@,
    ));
    Ok(content)
}

/// Whether the message about `alert` can be written.
pub fn can_build_message(service_base_url: &String, explorer_url: Option<&String>, alert: &Alert) -> (can:
    bool)
    ensures
        can == message_buildable(service_base_url@, opt_ref(explorer_url), alert),
{
    if !alert.created_at.is_printable() {
        return false;
    }
    let applies: bool = match (explorer_url, &alert.sloth_slo, &alert.objective_name) {
        (Some(_), Some(slo), Some(_)) => has_prefix(slo.as_str(), "success-rate-") || has_prefix(
            slo.as_str(),
            "latency-",
        ),
        _ => false,
    };
    assert(applies == explorer_applies(opt_ref(explorer_url), alert@));
    if applies && !alert.created_at.six_hours_earlier().is_printable() {
        return false;
    }
    if alert.chart_filename.is_some() {
        let path: String = chart_path_text(alert.id);
        join(service_base_url.as_str(), path.as_str()).is_some()
    } else {
        true
    }
}

/// Writes the message about `alert`, where it can be written.
pub fn try_build_message(
    service_base_url: &String,
    prometheus_url: &String,
    explorer_url: Option<&String>,
    alert: &Alert,
) -> (built: Option<SlackMessageContent>)
    ensures
        built is Some <==> message_buildable(service_base_url@, opt_ref(explorer_url), alert),
        built matches Some(content) ==> content@ == message_for(
            service_base_url@,
            prometheus_url@,
            opt_ref(explorer_url),
            alert@,
        ),
{
    if can_build_message(service_base_url, explorer_url, alert) {
        match build_message(service_base_url, prometheus_url, explorer_url, alert) {
            Ok(content) => Some(content),
            Err(_) => None,
        }
    } else {
        None
    }
}

/// The request that posts a message.
#[derive(Debug)]
pub struct PostMessageRequest {
    pub channel: String,
    pub content: SlackMessageContent,
}

/// The request that replaces the content of the message `ts` in `channel`.
#[derive(Debug)]
pub struct UpdateMessageRequest {
    pub channel: String,
    pub content: SlackMessageContent,
    pub ts: String,
    pub as_user: bool,
}

/// Where a posted message is: the chat's answer to a post.
#[derive(Debug)]
pub struct PostedMessage {
    pub channel: String,
    pub ts: String,
}

impl Clone for PostedMessage {
    fn clone(&self) -> (copy: PostedMessage)
        ensures
            copy == *self,
    {
        PostedMessage { channel: self.channel.clone(), ts: self.ts.clone() }
    }
}

/// The chat service: it knows where to post and which addresses to link.
#[derive(Debug)]
pub struct SlackService {
    /// Address of the service itself, under which charts are served.
    pub service_base_url: String,
    /// The channel that alerts are posted to.
    pub channel: String,
    /// Address of the metrics service, named in links to the explorer.
    pub prometheus_url: String,
    /// Address of the explorer. Where there is none, messages carry no
    /// link to it.
    pub explorer_base_url: Option<String>,
}

impl SlackService {
    pub fn new(
        service_base_url: String,
        config: SlackServiceConfig,
        prometheus_url: String,
        explorer_base_url: Option<String>,
    ) -> (service: SlackService)
        ensures
            service.service_base_url == service_base_url,
            service.channel == config.channel,
            service.prometheus_url == prometheus_url,
            service.explorer_base_url == explorer_base_url,
    {
        SlackService { service_base_url, channel: config.channel, prometheus_url, explorer_base_url }
    }

    /// Whether the message about `alert` can be written.
    pub open spec fn can_write(&self, alert: &Alert) -> bool {
        message_buildable(self.service_base_url@, opt_text(self.explorer_base_url), alert)
    }

    /// The message about `alert` as this service writes it.
    pub open spec fn message(&self, alert: AlertView) -> SlackMessageView {
        message_for(
            self.service_base_url@,
            self.prometheus_url@,
            opt_text(self.explorer_base_url),
            alert,
        )
    }

    /// The channel of the message about `alert`: the one it was posted to,
    /// else the one that alerts are posted to.
    pub open spec fn channel_of(&self, alert: AlertView) -> Seq<char> {
        match alert.slack_channel {
            Some(channel) => channel,
            None => self.channel@,
        }
    }

    /// The request that posts `alert` to the service's channel.
    pub fn send_alert(&self, alert: &Alert) -> (request: Result<PostMessageRequest, SlackServiceError>)
        requires
            self.can_write(alert),
        ensures
            request matches Ok(post) && post.channel@ == self.channel@ && post.content@
                == self.message(alert@),
    {
        let content = match build_message(
            &self.service_base_url,
            &self.prometheus_url,
            self.explorer_base_url.as_ref(),
            alert,
        ) {
            Ok(content) => content,
            Err(e) => {
                return Err(e);
            },
        };
        Ok(PostMessageRequest { channel: self.channel.clone(), content })
    }

    /// The request that brings the message about `alert` up to date. An
    /// alert that was never posted has no message: `MissingTimestamp`.
    pub fn update_alert(&self, alert: &Alert) -> (request: Result<
        UpdateMessageRequest,
        SlackServiceError,
    >)
        requires
            alert.slack_ts is Some ==> self.can_write(alert),
        ensures
            alert.slack_ts is None <==> request == Err::<UpdateMessageRequest, SlackServiceError>(
                SlackServiceError::MissingTimestamp,
            ),
            alert.slack_ts is Some ==> {
                &&& request matches Ok(update)
                &&& update.channel@ == self.channel_of(alert@)
                &&& update.content@ == self.message(alert@)
                &&& Some(update.ts@) == alert@.slack_ts
                &&& update.as_user
            },
    {
        let ts: String = match &alert.slack_ts {
            Some(ts) => ts.clone(),
            None => {
                return Err(SlackServiceError::MissingTimestamp);
            },
        };
        let channel: String = match &alert.slack_channel {
            Some(channel) => channel.clone(),
            None => self.channel.clone(),
        };
        let content = match build_message(
            &self.service_base_url,
            &self.prometheus_url,
            self.explorer_base_url.as_ref(),
            alert,
        ) {
            Ok(content) => content,
            Err(e) => {
                return Err(e);
            },
        };
        Ok(UpdateMessageRequest { channel, content, ts, as_user: true })
    }

    /// The request that posts `alert`, where its message can be written.
    pub fn try_send_alert(&self, alert: &Alert) -> (request: Option<
        Result<PostMessageRequest, SlackServiceError>,
    >)
        ensures
            request is Some <==> self.can_write(alert),
            request matches Some(r) ==> r matches Ok(post) && post.channel@ == self.channel@
                && post.content@ == self.message(alert@),
    {
        if can_build_message(&self.service_base_url, self.explorer_base_url.as_ref(), alert) {
            Some(self.send_alert(alert))
        } else {
            None
        }
    }

    /// The request that updates the message about `alert`, where the alert
    /// was never posted or its message can be written.
    pub fn try_update_alert(&self, alert: &Alert) -> (request: Option<
        Result<UpdateMessageRequest, SlackServiceError>,
    >)
        ensures
            request is Some <==> (alert.slack_ts is None || self.can_write(alert)),
            request matches Some(r) ==> {
                &&& alert.slack_ts is None <==> r == Err::<UpdateMessageRequest, SlackServiceError>(
                    SlackServiceError::MissingTimestamp,
                )
                &&& alert.slack_ts is Some ==> {
                    &&& r matches Ok(update)
                    &&& update.channel@ == self.channel_of(alert@)
                    &&& update.content@ == self.message(alert@)
                    &&& Some(update.ts@) == alert@.slack_ts
                    &&& update.as_user
                }
            },
    {
        if alert.slack_ts.is_none() || can_build_message(
            &self.service_base_url,
            self.explorer_base_url.as_ref(),
            alert,
        ) {
            Some(self.update_alert(alert))
        } else {
            None
        }
    }
}

} // verus!
