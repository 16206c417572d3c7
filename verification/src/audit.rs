//! Audit primitives for request tracking: structured events, the policy
//! decision attached to them, and the logger configuration.
//!
//! Timestamps are carried as milliseconds since the Unix epoch; the
//! caller that renders or persists events owns their formatting.  An
//! event's free-form metadata is carried as JSON text.

use vstd::prelude::*;

use crate::text::{is_bounded_prefix, prefix_upto};
use vstd::string::StringExecFns;

verus! {

/// Audit event type.
#[derive(Debug, Clone, Copy, PartialEq, Eq, Structural)]
pub enum AuditEventType {
    /// LLM request intercepted.
    RequestReceived,
    /// Policy evaluation completed.
    PolicyEvaluated,
    /// Request forwarded to the LLM.
    RequestForwarded,
    /// Response received from the LLM.
    ResponseReceived,
    /// Request blocked by policy.
    RequestBlocked,
    /// Error during processing.
    Error,
}

/// The wire name of each event type.
pub open spec fn spec_label(t: AuditEventType) -> Seq<char> {
    match t {
        AuditEventType::RequestReceived => "request_received"@,
        AuditEventType::PolicyEvaluated => "policy_evaluated"@,
        AuditEventType::RequestForwarded => "request_forwarded"@,
        AuditEventType::ResponseReceived => "response_received"@,
        AuditEventType::RequestBlocked => "request_blocked"@,
        AuditEventType::Error => "error"@,
    }
}

impl AuditEventType {
    /// The snake_case name the event type carries in logs.
    pub fn label(&self) -> (r: String)
        ensures
            r@ == spec_label(*self),
    {
        match self {
            AuditEventType::RequestReceived => String::from_str("request_received"),
            AuditEventType::PolicyEvaluated => String::from_str("policy_evaluated"),
            AuditEventType::RequestForwarded => String::from_str("request_forwarded"),
            AuditEventType::ResponseReceived => String::from_str("response_received"),
            AuditEventType::RequestBlocked => String::from_str("request_blocked"),
            AuditEventType::Error => String::from_str("error"),
        }
    }
}

/// Policy evaluation decision.
#[derive(Debug, Clone)]
pub struct PolicyDecision {
    /// Whether the request was allowed.
    pub allow: bool,
    /// The policy that made the decision.
    pub policy: String,
    /// Human-readable reason.
    pub reason: String,
    /// Policy mode.
    pub mode: String,
    /// Policy evaluation duration (microseconds).
    pub eval_duration_us: u64,
}

/// The mathematical value of a policy decision.
pub struct PolicyDecisionModel {
    pub allow: bool,
    pub policy: Seq<char>,
    pub reason: Seq<char>,
    pub mode: Seq<char>,
    pub eval_duration_us: u64,
}

impl View for PolicyDecision {
    type V = PolicyDecisionModel;

    open spec fn view(&self) -> PolicyDecisionModel {
        PolicyDecisionModel {
            allow: self.allow,
            policy: self.policy@,
            reason: self.reason@,
            mode: self.mode@,
            eval_duration_us: self.eval_duration_us,
        }
    }
}

/// Audit event for request governance.
#[derive(Debug, Clone)]
pub struct AuditEvent {
    /// Unique event ID.
    pub event_id: String,
    /// Event timestamp, Unix milliseconds.
    pub timestamp: i64,
    /// Event type.
    pub event_type: AuditEventType,
    /// Client IP address.
    pub client_ip: String,
    /// Target LLM endpoint (e.g., "api.openai.com").
    pub endpoint: String,
    /// HTTP method.
    pub method: String,
    /// Request path.
    pub path: String,
    /// User identifier (from policy or IP).
    pub user: Option<String>,
    /// Prompt preview (first 200 bytes, may be redacted).
    pub prompt_preview: Option<String>,
    /// Policy decision (if applicable).
    pub policy_decision: Option<PolicyDecision>,
    /// Response status code (if applicable).
    pub response_status: Option<u16>,
    /// Response duration in milliseconds.
    pub duration_ms: Option<u64>,
    /// Estimated token count.
    pub tokens: Option<usize>,
    /// Error message (if the event type is `Error`).
    pub error: Option<String>,
    /// Additional metadata, as JSON text.
    pub metadata: Option<String>,
}

/// The mathematical value of an audit event.
pub struct AuditEventModel {
    pub event_id: Seq<char>,
    pub timestamp: i64,
    pub event_type: AuditEventType,
    pub client_ip: Seq<char>,
    pub endpoint: Seq<char>,
    pub method: Seq<char>,
    pub path: Seq<char>,
    pub user: Option<Seq<char>>,
    pub prompt_preview: Option<Seq<char>>,
    pub policy_decision: Option<PolicyDecisionModel>,
    pub response_status: Option<u16>,
    pub duration_ms: Option<u64>,
    pub tokens: Option<usize>,
    pub error: Option<Seq<char>>,
    pub metadata: Option<Seq<char>>,
}

/// The view of an optional string.
pub open spec fn opt_view(o: Option<String>) -> Option<Seq<char>> {
    match o {
        Some(s) => Some(s@),
        None => None,
    }
}

/// The view of an optional policy decision.
pub open spec fn opt_decision_view(o: Option<PolicyDecision>) -> Option<PolicyDecisionModel> {
    match o {
        Some(d) => Some(d@),
        None => None,
    }
}

impl View for AuditEvent {
    type V = AuditEventModel;

    open spec fn view(&self) -> AuditEventModel {
        AuditEventModel {
            event_id: self.event_id@,
            timestamp: self.timestamp,
            event_type: self.event_type,
            client_ip: self.client_ip@,
            endpoint: self.endpoint@,
            method: self.method@,
            path: self.path@,
            user: opt_view(self.user),
            prompt_preview: opt_view(self.prompt_preview),
            policy_decision: opt_decision_view(self.policy_decision),
            response_status: self.response_status,
            duration_ms: self.duration_ms,
            tokens: self.tokens,
            error: opt_view(self.error),
            metadata: opt_view(self.metadata),
        }
    }
}

/// Relies on `uuid::Uuid::new_v4` and its `Display` form: a fresh random
/// identifier, rendered hyphenated, is always 36 characters.
#[verifier::external_body]
fn fresh_event_id() -> (r: String)
    ensures
        r@.len() == 36,
{
    uuid::Uuid::new_v4().to_string()
}

/// Relies on `chrono::Utc::now` and `timestamp_millis`: the wall-clock
/// time as Unix milliseconds.  Nothing is promised of the value.
#[verifier::external_body]
fn current_unix_millis() -> i64 {
    chrono::Utc::now().timestamp_millis()
}

/// A freshly created event: a new 36-character identifier, the given
/// type and peers, everything else empty.  The timestamp is whatever the
/// wall clock read.
pub open spec fn fresh_event(
    e: AuditEventModel,
    event_type: AuditEventType,
    client_ip: Seq<char>,
    endpoint: Seq<char>,
) -> bool {
    &&& e.event_id.len() == 36
    &&& e.event_type == event_type
    &&& e.client_ip == client_ip
    &&& e.endpoint == endpoint
    &&& e.method.len() == 0
    &&& e.path.len() == 0
    &&& e.user is None
    &&& e.prompt_preview is None
    &&& e.policy_decision is None
    &&& e.response_status is None
    &&& e.duration_ms is None
    &&& e.tokens is None
    &&& e.error is None
    &&& e.metadata is None
}

/// `preview` is the prompt cut to at most 200 bytes with an ellipsis
/// appended, the redacted preview form.
pub open spec fn redacted_preview(prompt: Seq<char>, preview: Seq<char>) -> bool {
    exists|pref: Seq<char>| #[trigger] is_bounded_prefix(prompt, pref, 200) && preview == pref + "..."@
}

impl AuditEvent {
    /// Creates a new audit event of the given type.
    pub fn new(event_type: AuditEventType, client_ip: String, endpoint: String) -> (r: AuditEvent)
        ensures
            fresh_event(r@, event_type, client_ip@, endpoint@),
    {
        AuditEvent {
            event_id: fresh_event_id(),
            timestamp: current_unix_millis(),
            event_type,
            client_ip,
            endpoint,
            method: String::new(),
            path: String::new(),
            user: None,
            prompt_preview: None,
            policy_decision: None,
            response_status: None,
            duration_ms: None,
            tokens: None,
            error: None,
            metadata: None,
        }
    }

    /// Creates a request-received event.
    pub fn request_received(client_ip: String, endpoint: String, method: String, path: String) -> (r:
        AuditEvent)
        ensures
            r@ == (AuditEventModel { method: method@, path: path@, ..r@ }),
            fresh_event(
                (AuditEventModel { method: Seq::empty(), path: Seq::empty(), ..r@ }),
                AuditEventType::RequestReceived,
                client_ip@,
                endpoint@,
            ),
            r@.method == method@,
            r@.path == path@,
    {
        let mut event = AuditEvent::new(AuditEventType::RequestReceived, client_ip, endpoint);
        event.method = method;
        event.path = path;
        event
    }

    /// Creates a policy-evaluated event.
    pub fn policy_evaluated(client_ip: String, endpoint: String, decision: PolicyDecision) -> (r:
        AuditEvent)
        ensures
            fresh_event(
                (AuditEventModel { policy_decision: None, ..r@ }),
                AuditEventType::PolicyEvaluated,
                client_ip@,
                endpoint@,
            ),
            r@.policy_decision == Some(decision@),
    {
        let mut event = AuditEvent::new(AuditEventType::PolicyEvaluated, client_ip, endpoint);
        event.policy_decision = Some(decision);
        event
    }

    /// Creates a request-blocked event; the reason rides in the error
    /// field.
    pub fn request_blocked(client_ip: String, endpoint: String, reason: String) -> (r: AuditEvent)
        ensures
            fresh_event(
                (AuditEventModel { error: None, ..r@ }),
                AuditEventType::RequestBlocked,
                client_ip@,
                endpoint@,
            ),
            r@.error == Some(reason@),
    {
        let mut event = AuditEvent::new(AuditEventType::RequestBlocked, client_ip, endpoint);
        event.error = Some(reason);
        event
    }

    /// Creates an error event.
    pub fn error(client_ip: String, endpoint: String, error: String) -> (r: AuditEvent)
        ensures
            fresh_event(
                (AuditEventModel { error: None, ..r@ }),
                AuditEventType::Error,
                client_ip@,
                endpoint@,
            ),
            r@.error == Some(error@),
    {
        let mut event = AuditEvent::new(AuditEventType::Error, client_ip, endpoint);
        event.error = Some(error);
        event
    }

    /// Adds a prompt preview: the prompt cut to at most 200 bytes (at a
    /// character boundary), with an ellipsis appended when the preview
    /// is redacted.
    pub fn with_prompt(self, prompt: String, redact: bool) -> (r: AuditEvent)
        ensures
            r@ == (AuditEventModel { prompt_preview: r@.prompt_preview, ..self@ }),
            r@.prompt_preview matches Some(p) && (if redact {
                redacted_preview(prompt@, p)
            } else {
                is_bounded_prefix(prompt@, p, 200)
            }),
    {
        let preview = prefix_upto(prompt.as_str(), 200);
        let preview = if redact {
            preview.concat("...")
        } else {
            preview
        };
        AuditEvent { prompt_preview: Some(preview), ..self }
    }

    /// Adds a user identifier.
    pub fn with_user(self, user: String) -> (r: AuditEvent)
        ensures
            r@ == (AuditEventModel { user: Some(user@), ..self@ }),
    {
        AuditEvent { user: Some(user), ..self }
    }

    /// Adds response details.
    pub fn with_response(self, status: u16, duration_ms: u64, tokens: Option<usize>) -> (r:
        AuditEvent)
        ensures
            r@ == (AuditEventModel {
                response_status: Some(status),
                duration_ms: Some(duration_ms),
                tokens: tokens,
                ..self@
            }),
    {
        AuditEvent {
            response_status: Some(status),
            duration_ms: Some(duration_ms),
            tokens,
            ..self
        }
    }
}

/// A failure surfaced by the audit log's storage.
#[derive(Debug, Clone, PartialEq, Eq)]
pub enum AuditError {
    /// The backing store failed.
    Internal(String),
}

/// Audit logger configuration.
#[derive(Debug, Clone, PartialEq, Eq, Structural)]
pub struct AuditConfig {
    /// Enable audit logging.
    pub enabled: bool,
    /// Redact PII in prompts.
    pub redact_pii: bool,
    /// Log request bodies.
    pub log_request_bodies: bool,
    /// Log response bodies.
    pub log_response_bodies: bool,
    /// Maximum prompt preview length.
    pub max_preview_length: usize,
    /// Retention period in days.
    pub retention_days: u32,
}

impl Default for AuditConfig {
    /// The stock configuration: logging on, PII redacted, bodies kept
    /// out of the log, 200-byte previews, one year of retention.
    fn default() -> (r: AuditConfig)
        ensures
            r == (AuditConfig {
                enabled: true,
                redact_pii: true,
                log_request_bodies: false,
                log_response_bodies: false,
                max_preview_length: 200,
                retention_days: 365,
            }),
    {
        AuditConfig {
            enabled: true,
            redact_pii: true,
            log_request_bodies: false,
            log_response_bodies: false,
            max_preview_length: 200,
            retention_days: 365,
        }
    }
}

/// Audit statistics.
#[derive(Debug, Clone)]
pub struct AuditStats {
    /// Total number of events.
    pub total_events: u64,
    /// Number of requests received.
    pub requests_received: u64,
    /// Number of requests blocked.
    pub requests_blocked: u64,
    /// Number of errors.
    pub errors: u64,
    /// Timestamp of the oldest event, Unix milliseconds.
    pub oldest_event: Option<i64>,
    /// Timestamp of the newest event, Unix milliseconds.
    pub newest_event: Option<i64>,
}

/// The audit logger.  It validates and accepts events; a persistent sink
/// (a database, a file) is the hosting application's to provide, so
/// accepting an event cannot fail here and the statistics of an empty
/// sink are all zero.
pub struct AuditLogger {
    config: AuditConfig,
}

impl AuditLogger {
    /// The configuration the logger was created with.
    pub closed spec fn spec_config(&self) -> AuditConfig {
        self.config
    }

    /// Creates a new audit logger.
    pub fn new(config: AuditConfig) -> (r: AuditLogger)
        ensures
            r.spec_config() == config,
    {
        AuditLogger { config }
    }

    /// Accepts an audit event.  With no persistent sink attached,
    /// accepting never fails, whether or not logging is enabled.
    pub fn log(&self, event: &AuditEvent) -> (r: Result<(), AuditError>)
        ensures
            r is Ok,
    {
        if !self.config.enabled {
            return Ok(());
        }
        let _ = event;
        Ok(())
    }

    /// Prunes audit records older than the retention period.  With no
    /// persistent sink attached there is nothing to prune.
    pub fn prune_old_logs(&self) -> (r: Result<usize, AuditError>)
        ensures
            r matches Ok(n) && n == 0,
    {
        Ok(0)
    }

    /// Audit statistics.  With no persistent sink attached every count
    /// is zero and there is no oldest or newest event.
    pub fn stats(&self) -> (r: AuditStats)
        ensures
            r.total_events == 0,
            r.requests_received == 0,
            r.requests_blocked == 0,
            r.errors == 0,
            r.oldest_event is None,
            r.newest_event is None,
    {
        AuditStats {
            total_events: 0,
            requests_received: 0,
            requests_blocked: 0,
            errors: 0,
            oldest_event: None,
            newest_event: None,
        }
    }
}

} // verus!
