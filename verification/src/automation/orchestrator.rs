//! The orchestrator of the five automation layers: its errors, its metrics
//! and its status report.
use vstd::prelude::*;

use crate::automation::asset_store::AssetStoreError;
use crate::automation::code_generator::GeneratorError;
use crate::automation::executor::{BatchExecutionResult, ExecutorError};
use crate::automation::types::{AutomationPath, AutomationResult, ExecutionStats};
use crate::text::opt_view;
use crate::text::{decimal, push_decimal};
use crate::automation::explorer::ExplorerError;
use crate::text::{push_str, to_owned};

verus! {

/// Errors of the orchestrator.
#[derive(Debug)]
pub enum OrchestratorError {
    /// Intent analysis failed.
    IntentError(String),
    /// Exploration failed.
    ExplorationError(ExplorerError),
    /// Code generation failed.
    GenerationError(GeneratorError),
    /// Execution failed.
    ExecutionError(ExecutorError),
    /// Asset store error.
    AssetError(AssetStoreError),
    /// Browser not connected.
    BrowserNotConnected,
    /// LLM not configured.
    LlmNotConfigured,
    /// Configuration error.
    ConfigError(String),
}

impl From<ExplorerError> for OrchestratorError {
    fn from(e: ExplorerError) -> (r: Self)
        ensures
            r == OrchestratorError::ExplorationError(e),
    {
        OrchestratorError::ExplorationError(e)
    }
}

impl vstd::std_specs::convert::FromSpecImpl<ExplorerError> for OrchestratorError {
    open spec fn obeys_from_spec() -> bool {
        true
    }

    open spec fn from_spec(v: ExplorerError) -> OrchestratorError {
        OrchestratorError::ExplorationError(v)
    }
}

impl From<GeneratorError> for OrchestratorError {
    fn from(e: GeneratorError) -> (r: Self)
        ensures
            r == OrchestratorError::GenerationError(e),
    {
        OrchestratorError::GenerationError(e)
    }
}

impl vstd::std_specs::convert::FromSpecImpl<GeneratorError> for OrchestratorError {
    open spec fn obeys_from_spec() -> bool {
        true
    }

    open spec fn from_spec(v: GeneratorError) -> OrchestratorError {
        OrchestratorError::GenerationError(v)
    }
}

impl From<ExecutorError> for OrchestratorError {
    fn from(e: ExecutorError) -> (r: Self)
        ensures
            r == OrchestratorError::ExecutionError(e),
    {
        OrchestratorError::ExecutionError(e)
    }
}

impl vstd::std_specs::convert::FromSpecImpl<ExecutorError> for OrchestratorError {
    open spec fn obeys_from_spec() -> bool {
        true
    }

    open spec fn from_spec(v: ExecutorError) -> OrchestratorError {
        OrchestratorError::ExecutionError(v)
    }
}

impl From<AssetStoreError> for OrchestratorError {
    fn from(e: AssetStoreError) -> (r: Self)
        ensures
            r == OrchestratorError::AssetError(e),
    {
        OrchestratorError::AssetError(e)
    }
}

impl vstd::std_specs::convert::FromSpecImpl<AssetStoreError> for OrchestratorError {
    open spec fn obeys_from_spec() -> bool {
        true
    }

    open spec fn from_spec(v: AssetStoreError) -> OrchestratorError {
        OrchestratorError::AssetError(v)
    }
}

impl OrchestratorError {
    /// The text of the error: each wrapped error's text behind the prefix of
    /// the layer it comes from.
    pub fn message(&self) -> (r: String)
        ensures
            match self {
                OrchestratorError::IntentError(m) => r@ == "Intent analysis failed: "@ + m@,
                OrchestratorError::ExplorationError(e) => r@ == "Exploration failed: "@
                    + e.message_spec(),
                OrchestratorError::GenerationError(e) => r@ == "Code generation failed: "@
                    + e.message_spec(),
                OrchestratorError::ExecutionError(e) => r@ == "Execution failed: "@
                    + e.message_spec(),
                OrchestratorError::AssetError(_) => crate::text::starts_with(
                    r@,
                    "Asset store error: "@,
                ),
                OrchestratorError::BrowserNotConnected => r@ == "Browser not connected"@,
                OrchestratorError::LlmNotConfigured => r@ == "LLM not configured"@,
                OrchestratorError::ConfigError(m) => r@ == "Configuration error: "@ + m@,
            },
    {
        match self {
            OrchestratorError::IntentError(m) => {
                let mut s = to_owned("Intent analysis failed: ");
                push_str(&mut s, m.as_str());
                s
            },
            OrchestratorError::ExplorationError(e) => {
                let mut s = to_owned("Exploration failed: ");
                let t = e.message();
                push_str(&mut s, t.as_str());
                s
            },
            OrchestratorError::GenerationError(e) => {
                let mut s = to_owned("Code generation failed: ");
                let t = e.message();
                push_str(&mut s, t.as_str());
                s
            },
            OrchestratorError::ExecutionError(e) => {
                let mut s = to_owned("Execution failed: ");
                let t = e.message();
                push_str(&mut s, t.as_str());
                s
            },
            OrchestratorError::AssetError(e) => {
                let mut s = to_owned("Asset store error: ");
                let ghost head = s@;
                let t = e.message();
                push_str(&mut s, t.as_str());
                proof {
                    assert(s@.subrange(0, head.len() as int) =~= head);
                }
                s
            },
            OrchestratorError::BrowserNotConnected => to_owned("Browser not connected"),
            OrchestratorError::LlmNotConfigured => to_owned("LLM not configured"),
            OrchestratorError::ConfigError(m) => {
                let mut s = to_owned("Configuration error: ");
                push_str(&mut s, m.as_str());
                s
            },
        }
    }
}

/// Counters of the orchestrator's work.  Every counter wraps around on
/// overflow, as an atomic `fetch_add` does.
#[derive(Debug)]
pub struct OrchestratorMetrics {
    /// Total requests processed.
    pub total_requests: u64,
    /// Successful requests.
    pub successful_requests: u64,
    /// Failed requests.
    pub failed_requests: u64,
    /// Scripts generated.
    pub scripts_generated: u64,
    /// Scripts reused.
    pub scripts_reused: u64,
    /// Total exploration tokens.
    pub exploration_tokens: u64,
    /// Total generation tokens.
    pub generation_tokens: u64,
    /// Estimated tokens saved.
    pub tokens_saved: u64,
    /// Total items processed.
    pub items_processed: u64,
}

/// A snapshot of the orchestrator's counters.
#[derive(Debug, Clone, Copy, PartialEq, Eq, Structural)]
pub struct MetricsSnapshot {
    pub total_requests: u64,
    pub successful_requests: u64,
    pub failed_requests: u64,
    pub scripts_generated: u64,
    pub scripts_reused: u64,
    pub exploration_tokens: u64,
    pub generation_tokens: u64,
    pub tokens_saved: u64,
    pub items_processed: u64,
}

impl OrchestratorMetrics {
    /// The counters as a snapshot.
    pub open spec fn view_metrics(&self) -> MetricsSnapshot {
        MetricsSnapshot {
            total_requests: self.total_requests,
            successful_requests: self.successful_requests,
            failed_requests: self.failed_requests,
            scripts_generated: self.scripts_generated,
            scripts_reused: self.scripts_reused,
            exploration_tokens: self.exploration_tokens,
            generation_tokens: self.generation_tokens,
            tokens_saved: self.tokens_saved,
            items_processed: self.items_processed,
        }
    }

    /// All counters at zero.
    pub fn new() -> (r: Self)
        ensures
            r.view_metrics() == zero_snapshot(),
    {
        OrchestratorMetrics {
            total_requests: 0,
            successful_requests: 0,
            failed_requests: 0,
            scripts_generated: 0,
            scripts_reused: 0,
            exploration_tokens: 0,
            generation_tokens: 0,
            tokens_saved: 0,
            items_processed: 0,
        }
    }

    /// Count a request, as a success or a failure.
    pub fn record_request(&mut self, success: bool)
        ensures
            final(self).view_metrics() == after_event(old(self).view_metrics(), MetricsEvent::Request(success)),
    {
        self.total_requests = self.total_requests.wrapping_add(1);
        if success {
            self.successful_requests = self.successful_requests.wrapping_add(1);
        } else {
            self.failed_requests = self.failed_requests.wrapping_add(1);
        }
    }

    /// Count a generated script.
    pub fn record_script_generated(&mut self)
        ensures
            final(self).view_metrics() == after_event(old(self).view_metrics(), MetricsEvent::ScriptGenerated),
    {
        self.scripts_generated = self.scripts_generated.wrapping_add(1);
    }

    /// Count a reused script.
    pub fn record_script_reused(&mut self)
        ensures
            final(self).view_metrics() == after_event(old(self).view_metrics(), MetricsEvent::ScriptReused),
    {
        self.scripts_reused = self.scripts_reused.wrapping_add(1);
    }

    /// Add token counts: spent exploring, spent generating, and saved.
    pub fn record_tokens(&mut self, exploration: u64, generation: u64, saved: u64)
        ensures
            final(self).view_metrics() == after_event(old(self).view_metrics(), MetricsEvent::Tokens(exploration, generation, saved)),
    {
        self.exploration_tokens = self.exploration_tokens.wrapping_add(exploration);
        self.generation_tokens = self.generation_tokens.wrapping_add(generation);
        self.tokens_saved = self.tokens_saved.wrapping_add(saved);
    }

    /// Add processed items.
    pub fn record_items(&mut self, count: u64)
        ensures
            final(self).view_metrics() == after_event(old(self).view_metrics(), MetricsEvent::Items(count)),
    {
        self.items_processed = self.items_processed.wrapping_add(count);
    }

    /// The current counters.
    pub fn snapshot(&self) -> (r: MetricsSnapshot)
        ensures
            r == self.view_metrics(),
    {
        MetricsSnapshot {
            total_requests: self.total_requests,
            successful_requests: self.successful_requests,
            failed_requests: self.failed_requests,
            scripts_generated: self.scripts_generated,
            scripts_reused: self.scripts_reused,
            exploration_tokens: self.exploration_tokens,
            generation_tokens: self.generation_tokens,
            tokens_saved: self.tokens_saved,
            items_processed: self.items_processed,
        }
    }
}

impl Default for OrchestratorMetrics {
    fn default() -> (r: Self)
        ensures
            r.view_metrics() == zero_snapshot(),
    {
        Self::new()
    }
}

/// The snapshot of fresh metrics.
pub open spec fn zero_snapshot() -> MetricsSnapshot {
    MetricsSnapshot {
        total_requests: 0,
        successful_requests: 0,
        failed_requests: 0,
        scripts_generated: 0,
        scripts_reused: 0,
        exploration_tokens: 0,
        generation_tokens: 0,
        tokens_saved: 0,
        items_processed: 0,
    }
}

/// One call recording into the metrics.
pub enum MetricsEvent {
    /// `record_request(success)`.
    Request(bool),
    /// `record_script_generated()`.
    ScriptGenerated,
    /// `record_script_reused()`.
    ScriptReused,
    /// `record_tokens(exploration, generation, saved)`.
    Tokens(u64, u64, u64),
    /// `record_items(count)`.
    Items(u64),
}

/// The counters after one recording call.
pub open spec fn after_event(m: MetricsSnapshot, e: MetricsEvent) -> MetricsSnapshot {
    match e {
        MetricsEvent::Request(success) => MetricsSnapshot {
            total_requests: m.total_requests.wrapping_add(1),
            successful_requests: if success {
                m.successful_requests.wrapping_add(1)
            } else {
                m.successful_requests
            },
            failed_requests: if success {
                m.failed_requests
            } else {
                m.failed_requests.wrapping_add(1)
            },
            ..m
        },
        MetricsEvent::ScriptGenerated => MetricsSnapshot {
            scripts_generated: m.scripts_generated.wrapping_add(1),
            ..m
        },
        MetricsEvent::ScriptReused => MetricsSnapshot {
            scripts_reused: m.scripts_reused.wrapping_add(1),
            ..m
        },
        MetricsEvent::Tokens(x, g, s) => MetricsSnapshot {
            exploration_tokens: m.exploration_tokens.wrapping_add(x),
            generation_tokens: m.generation_tokens.wrapping_add(g),
            tokens_saved: m.tokens_saved.wrapping_add(s),
            ..m
        },
        MetricsEvent::Items(n) => MetricsSnapshot {
            items_processed: m.items_processed.wrapping_add(n),
            ..m
        },
    }
}

/// The counters after a sequence of recording calls, in order.
pub open spec fn after_events(m: MetricsSnapshot, es: Seq<MetricsEvent>) -> MetricsSnapshot
    decreases es.len(),
{
    if es.len() == 0 {
        m
    } else {
        after_event(after_events(m, es.drop_last()), es.last())
    }
}

/// The number of request events in a sequence, and of those that succeeded.
pub open spec fn request_counts(es: Seq<MetricsEvent>) -> (nat, nat)
    decreases es.len(),
{
    if es.len() == 0 {
        (0, 0)
    } else {
        let (n, ok) = request_counts(es.drop_last());
        match es.last() {
            MetricsEvent::Request(success) => (n + 1, if success {
                ok + 1
            } else {
                ok
            }),
            _ => (n, ok),
        }
    }
}

/// Counting one more modulo 2^64 is a wrapping increment.
proof fn lemma_wrap_step(k: int, c: u64)
    requires
        k >= 0,
        c == k % 0x1_0000_0000_0000_0000,
    ensures
        (k + 1) % 0x1_0000_0000_0000_0000 == c.wrapping_add(1),
{
    let w: int = 0x1_0000_0000_0000_0000;
    vstd::arithmetic::div_mod::lemma_add_mod_noop(k, 1, w);
    vstd::arithmetic::div_mod::lemma_small_mod(1, w as nat);
    if c + 1 < w {
        vstd::arithmetic::div_mod::lemma_small_mod((c + 1) as nat, w as nat);
    } else {
        vstd::arithmetic::div_mod::lemma_mod_self_0(w);
    }
}

/// Every request is counted once, as a success or as a failure: after any
/// sequence of recording calls on fresh metrics, the total is the number of
/// requests, the successes and failures are those of the requests, and
/// successes plus failures make the total (all modulo 2^64, as the counters
/// wrap).
pub proof fn lemma_requests_partition(es: Seq<MetricsEvent>)
    ensures
        ({
            let m = after_events(zero_snapshot(), es);
            let (n, ok) = request_counts(es);
            &&& ok <= n
            &&& m.total_requests == n % 0x1_0000_0000_0000_0000
            &&& m.successful_requests == ok % 0x1_0000_0000_0000_0000
            &&& m.failed_requests == (n - ok) % 0x1_0000_0000_0000_0000
            &&& m.total_requests == (m.successful_requests + m.failed_requests)
                % 0x1_0000_0000_0000_0000
        }),
    decreases es.len(),
{
    let w: int = 0x1_0000_0000_0000_0000;
    if es.len() > 0 {
        lemma_requests_partition(es.drop_last());
        let p = after_events(zero_snapshot(), es.drop_last());
        let (n0, ok0) = request_counts(es.drop_last());
        lemma_wrap_step(n0 as int, p.total_requests);
        lemma_wrap_step(ok0 as int, p.successful_requests);
        lemma_wrap_step(n0 as int - ok0 as int, p.failed_requests);
    }
    let m = after_events(zero_snapshot(), es);
    let (n, ok) = request_counts(es);
    assert(m.total_requests == (m.successful_requests + m.failed_requests) % w) by {
        vstd::arithmetic::div_mod::lemma_add_mod_noop(ok as int, n as int - ok as int, w);
    }
}

/// What a sequence of recording calls adds to each of the other counters:
/// scripts generated, scripts reused, exploration tokens, generation
/// tokens, tokens saved and items processed, in that order.
pub open spec fn event_totals(es: Seq<MetricsEvent>) -> (nat, nat, nat, nat, nat, nat)
    decreases es.len(),
{
    if es.len() == 0 {
        (0, 0, 0, 0, 0, 0)
    } else {
        let t = event_totals(es.drop_last());
        match es.last() {
            MetricsEvent::ScriptGenerated => (t.0 + 1, t.1, t.2, t.3, t.4, t.5),
            MetricsEvent::ScriptReused => (t.0, t.1 + 1, t.2, t.3, t.4, t.5),
            MetricsEvent::Tokens(x, g, sv) => (t.0, t.1, t.2 + x as nat, t.3 + g as nat, t.4 + sv as nat, t.5),
            MetricsEvent::Items(n) => (t.0, t.1, t.2, t.3, t.4, t.5 + n as nat),
            MetricsEvent::Request(_) => t,
        }
    }
}

/// Adding `x` modulo 2^64 is a wrapping addition.
proof fn lemma_wrap_add(k: int, c: u64, x: u64)
    requires
        k >= 0,
        c == k % 0x1_0000_0000_0000_0000,
    ensures
        (k + x) % 0x1_0000_0000_0000_0000 == c.wrapping_add(x),
{
    let w: int = 0x1_0000_0000_0000_0000;
    vstd::arithmetic::div_mod::lemma_add_mod_noop(k, x as int, w);
    vstd::arithmetic::div_mod::lemma_small_mod(x as nat, w as nat);
    if c + x < w {
        vstd::arithmetic::div_mod::lemma_small_mod((c + x) as nat, w as nat);
    } else {
        let y: int = c + x - w;
        vstd::arithmetic::div_mod::lemma_small_mod(y as nat, w as nat);
        vstd::arithmetic::div_mod::lemma_mod_add_multiples_vanish(y, w);
    }
}

/// Every counter holds the sum of what was recorded into it: after any
/// sequence of recording calls on fresh metrics, each counter is the sum of
/// the amounts recorded for it, modulo 2^64 as the counters wrap, and the
/// request counters are split as `lemma_requests_partition` states.
pub proof fn lemma_counters_sum(es: Seq<MetricsEvent>)
    ensures
        ({
            let m = after_events(zero_snapshot(), es);
            let (n, ok) = request_counts(es);
            let t = event_totals(es);
            &&& m.total_requests == n % 0x1_0000_0000_0000_0000
            &&& m.successful_requests == ok % 0x1_0000_0000_0000_0000
            &&& m.failed_requests == (n - ok) % 0x1_0000_0000_0000_0000
            &&& m.scripts_generated == t.0 % 0x1_0000_0000_0000_0000
            &&& m.scripts_reused == t.1 % 0x1_0000_0000_0000_0000
            &&& m.exploration_tokens == t.2 % 0x1_0000_0000_0000_0000
            &&& m.generation_tokens == t.3 % 0x1_0000_0000_0000_0000
            &&& m.tokens_saved == t.4 % 0x1_0000_0000_0000_0000
            &&& m.items_processed == t.5 % 0x1_0000_0000_0000_0000
        }),
    decreases es.len(),
{
    lemma_requests_partition(es);
    if es.len() > 0 {
        lemma_counters_sum(es.drop_last());
        let p = after_events(zero_snapshot(), es.drop_last());
        let t = event_totals(es.drop_last());
        match es.last() {
            MetricsEvent::ScriptGenerated => {
                lemma_wrap_add(t.0 as int, p.scripts_generated, 1);
            },
            MetricsEvent::ScriptReused => {
                lemma_wrap_add(t.1 as int, p.scripts_reused, 1);
            },
            MetricsEvent::Tokens(x, g, sv) => {
                lemma_wrap_add(t.2 as int, p.exploration_tokens, x);
                lemma_wrap_add(t.3 as int, p.generation_tokens, g);
                lemma_wrap_add(t.4 as int, p.tokens_saved, sv);
            },
            MetricsEvent::Items(n) => {
                lemma_wrap_add(t.5 as int, p.items_processed, n);
            },
            MetricsEvent::Request(_) => {},
        }
    }
}

/// The handler that `execute` runs for a chosen path, with what it is
/// handed from the path.
pub enum PathHandler {
    /// Run the cached script with this id.
    CachedScript { script_id: String },
    /// Call the API of this type.
    DirectApi { api_type: String },
    /// Work item by item with computer vision, up to this many items.
    PureVision { max_items: usize },
    /// Explore this page and generate a script.
    ExploreAndGenerate { target_url: String },
    /// Explore, then run a script for the bulk of the work.
    Hybrid,
    /// Answer at once with a failure that gives this reason.
    HumanAssistance { reason: String },
}

/// `h` is the handler for `path`.
pub open spec fn handles(path: AutomationPath, h: PathHandler) -> bool {
    match (path, h) {
        (AutomationPath::ReuseScript { script_id }, PathHandler::CachedScript { script_id: id }) =>
            id@ == script_id@,
        (AutomationPath::DirectApi { api_type, .. }, PathHandler::DirectApi { api_type: t }) =>
            t@ == api_type@,
        (
            AutomationPath::PureComputerVision { max_items, .. },
            PathHandler::PureVision { max_items: m },
        ) => m == max_items,
        (
            AutomationPath::ExploreAndGenerate { target_url, .. },
            PathHandler::ExploreAndGenerate { target_url: u },
        ) => u@ == target_url@,
        (AutomationPath::HybridApproach { .. }, PathHandler::Hybrid) => true,
        (
            AutomationPath::RequiresHumanAssistance { reason },
            PathHandler::HumanAssistance { reason: why },
        ) => why@ == reason@,
        _ => false,
    }
}

/// Which handler `execute` runs for a path.
pub fn path_handler(path: &AutomationPath) -> (r: PathHandler)
    ensures
        handles(*path, r),
{
    match path {
        AutomationPath::ReuseScript { script_id } => PathHandler::CachedScript {
            script_id: to_owned(script_id.as_str()),
        },
        AutomationPath::DirectApi { api_type, .. } => PathHandler::DirectApi {
            api_type: to_owned(api_type.as_str()),
        },
        AutomationPath::PureComputerVision { max_items, .. } => PathHandler::PureVision {
            max_items: *max_items,
        },
        AutomationPath::ExploreAndGenerate { target_url, .. } => PathHandler::ExploreAndGenerate {
            target_url: to_owned(target_url.as_str()),
        },
        AutomationPath::HybridApproach { .. } => PathHandler::Hybrid,
        AutomationPath::RequiresHumanAssistance { reason } => PathHandler::HumanAssistance {
            reason: to_owned(reason.as_str()),
        },
    }
}

/// Whether an execution counts as a success: it returned a result, and the
/// result is a success.
pub open spec fn execution_succeeded(result: Result<AutomationResult, OrchestratorError>) -> bool {
    match result {
        Ok(r) => r.success,
        Err(_) => false,
    }
}

/// The last step of `execute`: with metrics enabled, count the request, as
/// a success when the result says so and as a failure otherwise (an error
/// included), then the items of the request; with metrics disabled, leave
/// the counters as they are.
pub fn record_execution(
    metrics: &mut OrchestratorMetrics,
    enable_metrics: bool,
    result: &Result<AutomationResult, OrchestratorError>,
    data_count: usize,
)
    ensures
        enable_metrics ==> final(metrics).view_metrics() == after_events(
            old(metrics).view_metrics(),
            seq![
                MetricsEvent::Request(execution_succeeded(*result)),
                MetricsEvent::Items(data_count as u64),
            ],
        ),
        !enable_metrics ==> final(metrics).view_metrics() == old(metrics).view_metrics(),
{
    if enable_metrics {
        let succeeded = match result {
            Ok(r) => r.success,
            Err(_) => false,
        };
        metrics.record_request(succeeded);
        metrics.record_items(data_count as u64);
        proof {
            reveal_with_fuel(after_events, 3);
            let es = seq![
                MetricsEvent::Request(execution_succeeded(*result)),
                MetricsEvent::Items(data_count as u64),
            ];
            assert(es.drop_last().drop_last() =~= Seq::<MetricsEvent>::empty());
            assert(es.drop_last() =~= seq![MetricsEvent::Request(execution_succeeded(*result))]);
        }
    }
}

/// The orchestrator's status report.
#[derive(Debug, Clone)]
pub struct OrchestratorStatus {
    /// Whether the orchestrator is ready.
    pub ready: bool,
    /// Whether a browser is connected.
    pub browser_connected: bool,
    /// Whether a language model is available.
    pub llm_available: bool,
    /// Number of cached scripts.
    pub cached_scripts: u64,
    /// Metrics snapshot.
    pub metrics: MetricsSnapshot,
}

impl OrchestratorStatus {
    /// The report for the given connections, cache size and counters: the
    /// orchestrator is ready when both a browser and a model are there.
    pub fn from_parts(
        browser_connected: bool,
        llm_available: bool,
        cached_scripts: u64,
        metrics: MetricsSnapshot,
    ) -> (r: Self)
        ensures
            r.ready == (browser_connected && llm_available),
            r.browser_connected == browser_connected,
            r.llm_available == llm_available,
            r.cached_scripts == cached_scripts,
            r.metrics == metrics,
    {
        OrchestratorStatus {
            ready: browser_connected && llm_available,
            browser_connected,
            llm_available,
            cached_scripts,
            metrics,
        }
    }
}

/// Configuration of the orchestrator.  The least success rate for reusing a
/// script, a fraction in `[0, 1]`, is held as the bit pattern of its `f64`.
#[derive(Debug, Clone, Copy)]
pub struct OrchestratorConfig {
    /// Data volume up to which pure CV is used instead of a script.
    pub cv_threshold: usize,
    /// Maximum script age for reuse, in seconds.
    pub max_script_age_secs: u64,
    /// Bits of the `f64` least success rate for reuse.
    pub min_reuse_success_rate_bits: u64,
    /// Whether to save generated scripts.
    pub save_scripts: bool,
    /// Default timeout in milliseconds.
    pub default_timeout_ms: u64,
    /// Whether to keep metrics.
    pub enable_metrics: bool,
}

/// Bits of `0.8f64`, the default least success rate for reuse.
pub const DEFAULT_MIN_REUSE_SUCCESS_RATE_BITS: u64 = 0x3FE9_9999_9999_999A;

impl Default for OrchestratorConfig {
    fn default() -> (r: Self)
        ensures
            r.cv_threshold == 10,
            r.max_script_age_secs == 604800,
            r.min_reuse_success_rate_bits == DEFAULT_MIN_REUSE_SUCCESS_RATE_BITS,
            r.save_scripts,
            r.default_timeout_ms == 300000,
            r.enable_metrics,
    {
        OrchestratorConfig {
            cv_threshold: 10,
            max_script_age_secs: 604800,
            min_reuse_success_rate_bits: DEFAULT_MIN_REUSE_SUCCESS_RATE_BITS,
            save_scripts: true,
            default_timeout_ms: 300000,
            enable_metrics: true,
        }
    }
}

/// Estimated tokens per item when a script replaces pure CV.
pub const CV_TOKENS_PER_ITEM: u64 = 10000;

/// Estimated tokens per item on the pure-CV path.
pub const PURE_CV_TOKENS_PER_ITEM: u64 = 15000;

/// A generated script is kept when saving is on and its batch succeeded.
pub fn should_save_script(config: &OrchestratorConfig, batch_success: bool) -> (r: bool)
    ensures
        r == (config.save_scripts && batch_success),
{
    config.save_scripts && batch_success
}

/// The statistics of an explore-and-generate run: the two phases' tokens,
/// no execution tokens, the batch's item counts and duration, and the pure-CV
/// estimate for the data.
pub fn explore_and_generate_stats(
    exploration_tokens: u64,
    generation_tokens: u64,
    batch: &BatchExecutionResult,
    data_count: usize,
) -> (r: ExecutionStats)
    requires
        exploration_tokens + generation_tokens <= u64::MAX,
        data_count * CV_TOKENS_PER_ITEM <= u64::MAX,
    ensures
        r == (ExecutionStats {
            duration_ms: batch.total_duration_ms,
            exploration_tokens,
            generation_tokens,
            execution_tokens: 0,
            total_tokens: (exploration_tokens + generation_tokens) as u64,
            items_processed: batch.successful_items,
            items_failed: batch.failed_items,
            script_reused: false,
            pure_cv_estimated_tokens: (data_count * CV_TOKENS_PER_ITEM) as u64,
        }),
{
    ExecutionStats {
        duration_ms: batch.total_duration_ms,
        exploration_tokens,
        generation_tokens,
        execution_tokens: 0,
        total_tokens: exploration_tokens + generation_tokens,
        items_processed: batch.successful_items,
        items_failed: batch.failed_items,
        script_reused: false,
        pure_cv_estimated_tokens: (data_count as u64) * CV_TOKENS_PER_ITEM,
    }
}

/// Tokens an explore-and-generate run saved against the pure-CV estimate
/// (never negative).
pub open spec fn tokens_saved_by(stats: ExecutionStats) -> u64 {
    if stats.pure_cv_estimated_tokens >= stats.total_tokens {
        (stats.pure_cv_estimated_tokens - stats.total_tokens) as u64
    } else {
        0
    }
}

/// Record an explore-and-generate run in the metrics when metrics are on:
/// one generated script, then the run's exploration and generation tokens
/// and the tokens it saved.  With metrics off nothing changes.
pub fn record_explore_and_generate(
    config: &OrchestratorConfig,
    metrics: &mut OrchestratorMetrics,
    stats: &ExecutionStats,
)
    ensures
        config.enable_metrics ==> final(metrics).view_metrics() == after_event(
            after_event(old(metrics).view_metrics(), MetricsEvent::ScriptGenerated),
            MetricsEvent::Tokens(
                stats.exploration_tokens,
                stats.generation_tokens,
                tokens_saved_by(*stats),
            ),
        ),
        !config.enable_metrics ==> final(metrics).view_metrics() == old(metrics).view_metrics(),
{
    if config.enable_metrics {
        metrics.record_script_generated();
        let saved = stats.saved_tokens();
        metrics.record_tokens(stats.exploration_tokens, stats.generation_tokens, saved);
    }
}

/// Record a run of a cached script in the metrics when metrics are on: one
/// reused script, and the pure-CV tokens it avoided (10000 per data item)
/// as saved.  With metrics off nothing changes.
pub fn record_cached_script(config: &OrchestratorConfig, metrics: &mut OrchestratorMetrics, data_count: usize)
    requires
        data_count * CV_TOKENS_PER_ITEM <= u64::MAX,
    ensures
        config.enable_metrics ==> final(metrics).view_metrics() == after_event(
            after_event(old(metrics).view_metrics(), MetricsEvent::ScriptReused),
            MetricsEvent::Tokens(0, 0, (data_count * CV_TOKENS_PER_ITEM) as u64),
        ),
        !config.enable_metrics ==> final(metrics).view_metrics() == old(metrics).view_metrics(),
{
    if config.enable_metrics {
        metrics.record_script_reused();
        metrics.record_tokens(0, 0, (data_count as u64) * CV_TOKENS_PER_ITEM);
    }
}

/// The message of an explore-and-generate run with failed items.
pub open spec fn failed_items_text(failed: nat, total: nat) -> Seq<char> {
    decimal(failed) + " of "@ + decimal(total) + " items failed"@
}

/// The result of an explore-and-generate run: successful when the batch
/// was, otherwise failed with the count of failed items; it carries the
/// run's statistics and the saved script's id.
pub fn explore_and_generate_result(
    request_id: &str,
    target_url: &str,
    batch_success: bool,
    failed_items: usize,
    data_count: usize,
    stats: ExecutionStats,
    script_id: Option<String>,
) -> (r: AutomationResult)
    ensures
        r.request_id@ == request_id@,
        r.success == batch_success,
        r.output is None,
        r.path_used matches AutomationPath::ExploreAndGenerate { target_url: t, estimated_tokens: e }
            && t@ == target_url@ && e == stats.total_tokens,
        batch_success ==> r.error is None,
        !batch_success ==> (r.error matches Some(m) && m@ == failed_items_text(
            failed_items as nat,
            data_count as nat,
        )),
        r.stats == stats,
        r.script_id == script_id,
{
    let path = AutomationPath::ExploreAndGenerate {
        target_url: to_owned(target_url),
        estimated_tokens: stats.total_tokens,
    };
    let error = if batch_success {
        None
    } else {
        let mut m = String::new();
        push_decimal(&mut m, failed_items as u64);
        push_str(&mut m, " of ");
        push_decimal(&mut m, data_count as u64);
        push_str(&mut m, " items failed");
        Some(m)
    };
    AutomationResult {
        request_id: to_owned(request_id),
        success: batch_success,
        output: None,
        error,
        path_used: path,
        stats,
        script_id,
        completed_at_millis: crate::context::subagent::utc_now_millis(),
    }
}

/// The result of running a cached script: the batch's success and
/// statistics, marked as reused with the pure-CV estimate for the data, on
/// the reuse path with the script's id.
pub fn cached_script_result(
    request_id: &str,
    script_id: &str,
    batch: &BatchExecutionResult,
    data_count: usize,
) -> (r: AutomationResult)
    requires
        data_count * CV_TOKENS_PER_ITEM <= u64::MAX,
    ensures
        r.request_id@ == request_id@,
        r.success == batch.success,
        r.output is None,
        r.error is None,
        r.path_used matches AutomationPath::ReuseScript { script_id: s } && s@ == script_id@,
        r.stats == (ExecutionStats {
            script_reused: true,
            pure_cv_estimated_tokens: (data_count * CV_TOKENS_PER_ITEM) as u64,
            ..batch.stats
        }),
        r.script_id matches Some(s) && s@ == script_id@,
{
    let mut stats = batch.stats;
    stats.script_reused = true;
    stats.pure_cv_estimated_tokens = (data_count as u64) * CV_TOKENS_PER_ITEM;
    AutomationResult {
        request_id: to_owned(request_id),
        success: batch.success,
        output: None,
        error: None,
        path_used: AutomationPath::ReuseScript { script_id: to_owned(script_id) },
        stats,
        script_id: Some(to_owned(script_id)),
        completed_at_millis: crate::context::subagent::utc_now_millis(),
    }
}

/// Statistics with nothing but a pure-CV estimate.
pub open spec fn estimate_only(s: ExecutionStats, estimate: u64) -> bool {
    s == ExecutionStats {
        duration_ms: 0,
        exploration_tokens: 0,
        generation_tokens: 0,
        execution_tokens: 0,
        total_tokens: 0,
        items_processed: 0,
        items_failed: 0,
        script_reused: false,
        pure_cv_estimated_tokens: estimate,
    }
}

/// The result of the direct-API path, which is not carried out: a failure
/// with the pure-CV estimate for the data.
pub fn direct_api_result(request_id: &str, api_type: &str, data_count: usize) -> (r: AutomationResult)
    requires
        data_count * CV_TOKENS_PER_ITEM <= u64::MAX,
    ensures
        r.request_id@ == request_id@,
        !r.success,
        r.error matches Some(m) && m@ == "Direct API execution not yet implemented"@,
        r.path_used matches AutomationPath::DirectApi { api_type: t, api_endpoint: None } && t@
            == api_type@,
        estimate_only(r.stats, (data_count * CV_TOKENS_PER_ITEM) as u64),
        r.script_id is None,
        r.output is None,
{
    let mut stats = ExecutionStats::default();
    stats.pure_cv_estimated_tokens = (data_count as u64) * CV_TOKENS_PER_ITEM;
    AutomationResult {
        request_id: to_owned(request_id),
        success: false,
        output: None,
        error: Some(to_owned("Direct API execution not yet implemented")),
        path_used: AutomationPath::DirectApi { api_type: to_owned(api_type), api_endpoint: None },
        stats,
        script_id: None,
        completed_at_millis: crate::context::subagent::utc_now_millis(),
    }
}

/// The result of the pure-CV path, which the computer-use tools carry out
/// directly: a failure with the pure-CV estimate for the data.
pub fn pure_cv_result(request_id: &str, max_items: usize, data_count: usize) -> (r: AutomationResult)
    requires
        data_count * PURE_CV_TOKENS_PER_ITEM <= u64::MAX,
    ensures
        r.request_id@ == request_id@,
        !r.success,
        r.error matches Some(m) && m@ == "Pure CV execution should use computer_* tools directly"@,
        r.path_used == (AutomationPath::PureComputerVision {
            max_items,
            estimated_tokens: (data_count * PURE_CV_TOKENS_PER_ITEM) as u64,
        }),
        estimate_only(r.stats, (data_count * PURE_CV_TOKENS_PER_ITEM) as u64),
        r.script_id is None,
        r.output is None,
{
    let estimate = (data_count as u64) * PURE_CV_TOKENS_PER_ITEM;
    let mut stats = ExecutionStats::default();
    stats.pure_cv_estimated_tokens = estimate;
    AutomationResult {
        request_id: to_owned(request_id),
        success: false,
        output: None,
        error: Some(to_owned("Pure CV execution should use computer_* tools directly")),
        path_used: AutomationPath::PureComputerVision { max_items, estimated_tokens: estimate },
        stats,
        script_id: None,
        completed_at_millis: crate::context::subagent::utc_now_millis(),
    }
}

/// The result of a task that needs a person: a failure giving the reason.
pub fn human_assistance_result(request_id: &str, reason: &str) -> (r: AutomationResult)
    ensures
        r.request_id@ == request_id@,
        !r.success,
        r.error matches Some(m) && m@ == "Requires human assistance: "@ + reason@,
        r.path_used matches AutomationPath::RequiresHumanAssistance { reason: x } && x@
            == reason@,
        estimate_only(r.stats, 0),
        r.script_id is None,
        r.output is None,
{
    let mut m = to_owned("Requires human assistance: ");
    push_str(&mut m, reason);
    AutomationResult {
        request_id: to_owned(request_id),
        success: false,
        output: None,
        error: Some(m),
        path_used: AutomationPath::RequiresHumanAssistance { reason: to_owned(reason) },
        stats: ExecutionStats::default(),
        script_id: None,
        completed_at_millis: crate::context::subagent::utc_now_millis(),
    }
}

} // verus!
