//! The alert entity and the values it is built from.
use vstd::prelude::*;
use crate::text::{clone_opt, opt_text};

verus! {

/// Nanoseconds in one second.
pub const NANOS_PER_SECOND: i128 = 1_000_000_000;

/// First instant of the year 0000, in nanoseconds since the Unix epoch.
pub const FIRST_PRINTABLE_NANOS: i128 = -62_167_219_200_000_000_000;

/// First instant of the year 10000, in nanoseconds since the Unix epoch.
pub const END_PRINTABLE_NANOS: i128 = 253_402_300_800_000_000_000;

/// An instant in UTC, counted in nanoseconds since the Unix epoch.
#[derive(Clone, Copy, Debug, PartialEq, Eq, Structural)]
pub struct Timestamp {
    pub unix_nanos: i128,
}

impl View for Timestamp {
    type V = int;

    open spec fn view(&self) -> int {
        self.unix_nanos as int
    }
}

impl Timestamp {
    /// Whether the instant lies in the years 0000 to 9999, which is what a
    /// calendar notation with four year digits can write.
    pub open spec fn printable(self) -> bool {
        FIRST_PRINTABLE_NANOS <= self.unix_nanos < END_PRINTABLE_NANOS
    }

    pub fn from_unix_nanos(unix_nanos: i128) -> (t: Timestamp)
        ensures
            t@ == unix_nanos,
    {
        Timestamp { unix_nanos }
    }

    /// The whole seconds since the Unix epoch, rounded towards the past.
    pub open spec fn spec_unix_timestamp(self) -> int {
        self@ / (NANOS_PER_SECOND as int)
    }

    /// Whether the whole seconds since the Unix epoch fit in 64 bits.
    pub open spec fn has_seconds(self) -> bool {
        i64::MIN <= self.spec_unix_timestamp() <= i64::MAX
    }

    /// The whole seconds since the Unix epoch, rounded towards the past.
    pub fn unix_timestamp(&self) -> (seconds: i64)
        requires
            self.has_seconds(),
        ensures
            seconds == self.spec_unix_timestamp(),
    {
        let n: i128 = self.unix_nanos;
        let q: i128 = n / NANOS_PER_SECOND;
        let r: i128 = n % NANOS_PER_SECOND;
        let floor: i128 = if r < 0 {
            q - 1
        } else {
            q
        };
        assert(floor == (n as int) / (NANOS_PER_SECOND as int)) by {
            assert(n == q * NANOS_PER_SECOND + r);
            if r < 0 {
                assert(n as int == (q - 1) * 1_000_000_000 + (r + 1_000_000_000)) by (nonlinear_arith)
                    requires
                        n == q * 1_000_000_000 + r,
                ;
                vstd::arithmetic::div_mod::lemma_fundamental_div_mod_converse(
                    n as int,
                    1_000_000_000,
                    (q - 1) as int,
                    (r + 1_000_000_000) as int,
                );
            } else {
                vstd::arithmetic::div_mod::lemma_fundamental_div_mod_converse(
                    n as int,
                    1_000_000_000,
                    q as int,
                    r as int,
                );
            }
        }
        floor as i64
    }
}

/// The abstract value of an [`Alert`].
pub struct AlertView {
    pub id: int,
    pub text: Seq<char>,
    pub resolved: bool,
    pub fingerprint: Option<Seq<char>>,
    pub chart_filename: Option<Seq<char>>,
    pub slack_channel: Option<Seq<char>>,
    pub slack_ts: Option<Seq<char>>,
    pub sloth_slo: Option<Seq<char>>,
    pub sloth_service: Option<Seq<char>>,
    pub objective_name: Option<Seq<char>>,
    pub severity: Option<Seq<char>>,
    pub created_at: int,
    pub updated_at: int,
}

impl AlertView {
    /// The chat message of an alert is known by channel and timestamp
    /// together, or not at all.
    pub open spec fn chat_ref_consistent(self) -> bool {
        self.slack_channel is Some <==> self.slack_ts is Some
    }

    /// Whether `later` is this row at a later time: what is fixed at
    /// creation is the same in both.
    pub open spec fn same_alert(self, later: AlertView) -> bool {
        &&& later.id == self.id
        &&& later.text == self.text
        &&& later.fingerprint == self.fingerprint
        &&& later.sloth_slo == self.sloth_slo
        &&& later.sloth_service == self.sloth_service
        &&& later.objective_name == self.objective_name
        &&& later.severity == self.severity
        &&& later.created_at == self.created_at
    }

    /// What a row holds after a full-row update with `change`: the mutable
    /// fields of `change`, everything else as before, stamped with `now`.
    pub open spec fn updated_with(self, change: AlertView, now: int) -> AlertView {
        AlertView {
            resolved: change.resolved,
            chart_filename: change.chart_filename,
            slack_channel: change.slack_channel,
            slack_ts: change.slack_ts,
            updated_at: now,
            ..self
        }
    }
}

/// A stored alert.
#[derive(Debug)]
pub struct Alert {
    pub id: i64,
    pub text: String,
    pub resolved: bool,
    pub fingerprint: Option<String>,
    pub chart_filename: Option<String>,
    pub slack_channel: Option<String>,
    pub slack_ts: Option<String>,
    pub sloth_slo: Option<String>,
    pub sloth_service: Option<String>,
    pub objective_name: Option<String>,
    pub severity: Option<String>,
    pub created_at: Timestamp,
    pub updated_at: Timestamp,
}

impl View for Alert {
    type V = AlertView;

    open spec fn view(&self) -> AlertView {
        AlertView {
            id: self.id as int,
            text: self.text@,
            resolved: self.resolved,
            fingerprint: opt_text(self.fingerprint),
            chart_filename: opt_text(self.chart_filename),
            slack_channel: opt_text(self.slack_channel),
            slack_ts: opt_text(self.slack_ts),
            sloth_slo: opt_text(self.sloth_slo),
            sloth_service: opt_text(self.sloth_service),
            objective_name: opt_text(self.objective_name),
            severity: opt_text(self.severity),
            created_at: self.created_at@,
            updated_at: self.updated_at@,
        }
    }
}

impl Clone for Alert {
    fn clone(&self) -> (copy: Alert)
        ensures
            copy == *self,
    {
        Alert {
            id: self.id,
            text: self.text.clone(),
            resolved: self.resolved,
            fingerprint: clone_opt(&self.fingerprint),
            chart_filename: clone_opt(&self.chart_filename),
            slack_channel: clone_opt(&self.slack_channel),
            slack_ts: clone_opt(&self.slack_ts),
            sloth_slo: clone_opt(&self.sloth_slo),
            sloth_service: clone_opt(&self.sloth_service),
            objective_name: clone_opt(&self.objective_name),
            severity: clone_opt(&self.severity),
            created_at: self.created_at,
            updated_at: self.updated_at,
        }
    }
}

/// The abstract value of a [`NewAlert`].
pub struct NewAlertView {
    pub text: Seq<char>,
    pub resolved: bool,
    pub fingerprint: Option<Seq<char>>,
    pub chart_filename: Option<Seq<char>>,
    pub slack_channel: Option<Seq<char>>,
    pub slack_ts: Option<Seq<char>>,
    pub sloth_slo: Option<Seq<char>>,
    pub sloth_service: Option<Seq<char>>,
    pub objective_name: Option<Seq<char>>,
    pub severity: Option<Seq<char>>,
}

impl NewAlertView {
    /// The row that the store makes of this alert under `id` at `now`.
    pub open spec fn stored_as(self, id: int, now: int) -> AlertView {
        AlertView {
            id,
            text: self.text,
            resolved: self.resolved,
            fingerprint: self.fingerprint,
            chart_filename: self.chart_filename,
            slack_channel: self.slack_channel,
            slack_ts: self.slack_ts,
            sloth_slo: self.sloth_slo,
            sloth_service: self.sloth_service,
            objective_name: self.objective_name,
            severity: self.severity,
            created_at: now,
            updated_at: now,
        }
    }
}

/// An alert that the store has not seen yet.
#[derive(Debug)]
pub struct NewAlert {
    pub text: String,
    pub resolved: bool,
    pub fingerprint: Option<String>,
    pub chart_filename: Option<String>,
    pub slack_channel: Option<String>,
    pub slack_ts: Option<String>,
    pub sloth_slo: Option<String>,
    pub sloth_service: Option<String>,
    pub objective_name: Option<String>,
    pub severity: Option<String>,
}

impl View for NewAlert {
    type V = NewAlertView;

    open spec fn view(&self) -> NewAlertView {
        NewAlertView {
            text: self.text@,
            resolved: self.resolved,
            fingerprint: opt_text(self.fingerprint),
            chart_filename: opt_text(self.chart_filename),
            slack_channel: opt_text(self.slack_channel),
            slack_ts: opt_text(self.slack_ts),
            sloth_slo: opt_text(self.sloth_slo),
            sloth_service: opt_text(self.sloth_service),
            objective_name: opt_text(self.objective_name),
            severity: opt_text(self.severity),
        }
    }
}

} // verus!
