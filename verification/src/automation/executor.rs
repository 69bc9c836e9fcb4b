//! Script execution, the fourth layer of the automation architecture: the
//! wrapping of a script with its data, and the bookkeeping of per-item results.
use vstd::prelude::*;

use std::collections::HashMap;

use crate::text::opt_view;

use crate::automation::types::{ExecutionStats, ScriptType};
use crate::json::{
    array_of, bool_field_or, field_of, get_bool_or, get_str, json_as_array, json_field, json_parse,
    parsed_json, str_field,
};
use crate::text::{push_decimal, push_str, starts_with, to_owned};

verus! {

/// Errors of the script executor.
#[derive(Debug)]
pub enum ExecutorError {
    /// Execution failed.
    ExecutionFailed(String),
    /// Script error.
    ScriptError(String),
    /// Timeout after the given number of milliseconds.
    Timeout(u64),
    /// Invalid script.
    InvalidScript(String),
    /// Router unavailable.
    RouterUnavailable(String),
}

impl ExecutorError {
    /// The text of the error.
    pub open spec fn message_spec(&self) -> Seq<char> {
        match self {
            ExecutorError::ExecutionFailed(m) => "Execution failed: "@ + m@,
            ExecutorError::ScriptError(m) => "Script error: "@ + m@,
            ExecutorError::Timeout(ms) => "Timeout after "@ + crate::text::decimal(*ms as nat)
                + "ms"@,
            ExecutorError::InvalidScript(m) => "Invalid script: "@ + m@,
            ExecutorError::RouterUnavailable(m) => "Router unavailable: "@ + m@,
        }
    }

    /// The text of the error.
    pub fn message(&self) -> (r: String)
        ensures
            r@ == self.message_spec(),
    {
        match self {
            ExecutorError::Timeout(ms) => {
                let mut s = to_owned("Timeout after ");
                push_decimal(&mut s, *ms);
                push_str(&mut s, "ms");
                s
            },
            ExecutorError::ExecutionFailed(m) => {
                let mut s = to_owned("Execution failed: ");
                push_str(&mut s, m.as_str());
                s
            },
            ExecutorError::ScriptError(m) => {
                let mut s = to_owned("Script error: ");
                push_str(&mut s, m.as_str());
                s
            },
            ExecutorError::InvalidScript(m) => {
                let mut s = to_owned("Invalid script: ");
                push_str(&mut s, m.as_str());
                s
            },
            ExecutorError::RouterUnavailable(m) => {
                let mut s = to_owned("Router unavailable: ");
                push_str(&mut s, m.as_str());
                s
            },
        }
    }
}

/// Options for script execution.
#[derive(Debug, Clone)]
pub struct ExecutionOptions {
    /// Timeout for the entire execution (milliseconds).
    pub timeout_ms: u64,
    /// Whether to run in parallel (for multiple data items).
    pub parallel: bool,
    /// Maximum parallel executions.
    pub max_parallel: usize,
    /// Whether to continue on error.
    pub continue_on_error: bool,
    /// Whether to capture screenshots on error.
    pub screenshot_on_error: bool,
    /// Session ID for stateful execution.
    pub session_id: Option<String>,
    /// Environment variables.
    pub env_vars: HashMap<String, String>,
}

impl Default for ExecutionOptions {
    fn default() -> (r: Self)
        ensures
            r.timeout_ms == 300000,
            !r.parallel,
            r.max_parallel == 5,
            r.continue_on_error,
            r.screenshot_on_error,
            r.session_id is None,
            r.env_vars@ == Map::<String, String>::empty(),
    {
        ExecutionOptions {
            timeout_ms: 300000,
            parallel: false,
            max_parallel: 5,
            continue_on_error: true,
            screenshot_on_error: true,
            session_id: None,
            env_vars: HashMap::new(),
        }
    }
}

/// Result of the execution of one data item.
#[derive(Debug, Clone)]
pub struct ItemExecutionResult {
    /// Item index.
    pub index: usize,
    /// Whether execution succeeded.
    pub success: bool,
    /// Output data.
    pub output: Option<serde_json::Value>,
    /// Error message if failed.
    pub error: Option<String>,
    /// Duration in milliseconds.
    pub duration_ms: u64,
}

/// An item result, with its error taken as characters.
pub struct ItemView {
    pub index: usize,
    pub success: bool,
    pub output: Option<serde_json::Value>,
    pub error: Option<Seq<char>>,
    pub duration_ms: u64,
}

impl ItemExecutionResult {
    /// The result, with its error taken as characters.
    pub open spec fn view_item(&self) -> ItemView {
        ItemView {
            index: self.index,
            success: self.success,
            output: self.output,
            error: match self.error {
                Some(e) => Some(e@),
                None => None,
            },
            duration_ms: self.duration_ms,
        }
    }
}

/// The counters and results of a batch, as plain values.
pub struct BatchView {
    pub success: bool,
    pub results: Seq<ItemView>,
    pub total_items: nat,
    pub successful_items: nat,
    pub failed_items: nat,
    pub total_duration_ms: u64,
    pub stats: ExecutionStats,
}

/// A batch with one more item result.
pub open spec fn with_result(b: BatchView, r: ItemView) -> BatchView {
    BatchView {
        success: b.success && r.success,
        results: b.results.push(r),
        total_items: b.total_items + 1,
        successful_items: if r.success {
            b.successful_items + 1
        } else {
            b.successful_items
        },
        failed_items: if r.success {
            b.failed_items
        } else {
            b.failed_items + 1
        },
        ..b
    }
}

/// A batch with the given item results added in order.
pub open spec fn with_results(b: BatchView, rs: Seq<ItemView>) -> BatchView
    decreases rs.len(),
{
    if rs.len() == 0 {
        b
    } else {
        with_result(with_results(b, rs.drop_last()), rs.last())
    }
}

/// Number of successful results.
pub open spec fn count_ok(rs: Seq<ItemView>) -> nat
    decreases rs.len(),
{
    if rs.len() == 0 {
        0
    } else {
        count_ok(rs.drop_last()) + if rs.last().success {
            1nat
        } else {
            0nat
        }
    }
}

/// Adding results moves each counter by what the results hold.
pub proof fn lemma_with_results_counts(b: BatchView, rs: Seq<ItemView>)
    ensures
        with_results(b, rs).results == b.results + rs,
        with_results(b, rs).total_items == b.total_items + rs.len(),
        with_results(b, rs).successful_items == b.successful_items + count_ok(rs),
        with_results(b, rs).failed_items + count_ok(rs) == b.failed_items + rs.len(),
        with_results(b, rs).success == (b.success && count_ok(rs) == rs.len()),
        with_results(b, rs).total_duration_ms == b.total_duration_ms,
        with_results(b, rs).stats == b.stats,
        count_ok(rs) <= rs.len(),
    decreases rs.len(),
{
    if rs.len() > 0 {
        lemma_with_results_counts(b, rs.drop_last());
        assert(b.results + rs.drop_last() + seq![rs.last()] =~= b.results + rs);
    }
}

/// Counting successes over a concatenation.
pub proof fn lemma_count_ok_concat(a: Seq<ItemView>, b: Seq<ItemView>)
    ensures
        count_ok(a + b) == count_ok(a) + count_ok(b),
    decreases b.len(),
{
    if b.len() > 0 {
        assert((a + b).drop_last() =~= a + b.drop_last());
        lemma_count_ok_concat(a, b.drop_last());
    } else {
        assert(a + b =~= a);
    }
}

/// A batch whose counters agree with its results keeps them in agreement as
/// results are added.
pub proof fn lemma_with_results_wf(b: BatchView, rs: Seq<ItemView>)
    requires
        b.total_items == b.results.len(),
        b.successful_items == count_ok(b.results),
        b.successful_items + b.failed_items == b.total_items,
        b.success == (b.failed_items == 0),
    ensures
        ({
            let a = with_results(b, rs);
            &&& a.total_items == a.results.len()
            &&& a.successful_items == count_ok(a.results)
            &&& a.successful_items + a.failed_items == a.total_items
            &&& a.success == (a.failed_items == 0)
        }),
{
    lemma_with_results_counts(b, rs);
    lemma_count_ok_concat(b.results, rs);
}

/// Result of executing a batch of items.
#[derive(Debug, Clone)]
pub struct BatchExecutionResult {
    /// Overall success (all items succeeded).
    pub success: bool,
    /// Individual results.
    pub results: Vec<ItemExecutionResult>,
    /// Total items processed.
    pub total_items: usize,
    /// Successful items.
    pub successful_items: usize,
    /// Failed items.
    pub failed_items: usize,
    /// Total duration in milliseconds.
    pub total_duration_ms: u64,
    /// Statistics.
    pub stats: ExecutionStats,
}

impl BatchExecutionResult {
    /// The batch as plain values.
    pub open spec fn view_batch(&self) -> BatchView {
        BatchView {
            success: self.success,
            results: self.results@.map_values(|r: ItemExecutionResult| r.view_item()),
            total_items: self.total_items as nat,
            successful_items: self.successful_items as nat,
            failed_items: self.failed_items as nat,
            total_duration_ms: self.total_duration_ms,
            stats: self.stats,
        }
    }

    /// The counters agree with the results: every result is counted once, as a
    /// success or a failure, and the batch succeeds exactly when none failed.
    pub open spec fn wf(&self) -> bool {
        &&& self.total_items == self.results@.len()
        &&& self.successful_items == count_ok(self.view_batch().results)
        &&& self.successful_items + self.failed_items == self.total_items
        &&& self.success == (self.failed_items == 0)
    }

    /// An empty, successful batch.
    pub fn new() -> (r: Self)
        ensures
            r.success,
            r.results@.len() == 0,
            r.total_items == 0,
            r.successful_items == 0,
            r.failed_items == 0,
            r.total_duration_ms == 0,
            r.stats == ExecutionStats::default_spec(),
            r.wf(),
    {
        BatchExecutionResult {
            success: true,
            results: Vec::new(),
            total_items: 0,
            successful_items: 0,
            failed_items: 0,
            total_duration_ms: 0,
            stats: ExecutionStats::default(),
        }
    }

    /// Record the result of one item.
    pub fn add_result(&mut self, result: ItemExecutionResult)
        requires
            old(self).total_items < usize::MAX,
            result.success ==> old(self).successful_items < usize::MAX,
            !result.success ==> old(self).failed_items < usize::MAX,
        ensures
            final(self).view_batch() == with_result(old(self).view_batch(), result.view_item()),
            old(self).wf() ==> final(self).wf(),
    {
        if result.success {
            self.successful_items = self.successful_items + 1;
        } else {
            self.failed_items = self.failed_items + 1;
            self.success = false;
        }
        self.total_items = self.total_items + 1;
        let ghost before = self.results@;
        let ghost item = result.view_item();
        self.results.push(result);
        proof {
            assert(self.results@.map_values(|r: ItemExecutionResult| r.view_item()) =~= before.map_values(
                |r: ItemExecutionResult| r.view_item(),
            ).push(item));
            assert(self.results@.map_values(|r: ItemExecutionResult| r.view_item()).drop_last()
                =~= before.map_values(|r: ItemExecutionResult| r.view_item()));
        }
    }

    /// Close the batch: record its duration and copy the counters into the
    /// statistics (script execution spends no tokens).
    pub fn finalize(&mut self, duration_ms: u64)
        ensures
            final(self).total_duration_ms == duration_ms,
            final(self).stats.duration_ms == duration_ms,
            final(self).stats.items_processed == old(self).successful_items,
            final(self).stats.items_failed == old(self).failed_items,
            final(self).stats.execution_tokens == 0,
            final(self).stats.exploration_tokens == old(self).stats.exploration_tokens,
            final(self).stats.generation_tokens == old(self).stats.generation_tokens,
            final(self).stats.total_tokens == old(self).stats.total_tokens,
            final(self).stats.script_reused == old(self).stats.script_reused,
            final(self).stats.pure_cv_estimated_tokens == old(self).stats.pure_cv_estimated_tokens,
            final(self).success == old(self).success,
            final(self).results@ == old(self).results@,
            final(self).total_items == old(self).total_items,
            final(self).successful_items == old(self).successful_items,
            final(self).failed_items == old(self).failed_items,
    {
        self.total_duration_ms = duration_ms;
        self.stats.duration_ms = duration_ms;
        self.stats.items_processed = self.successful_items;
        self.stats.items_failed = self.failed_items;
        self.stats.execution_tokens = 0;
    }
}

impl ExecutionStats {
    /// The statistics of a batch that has not run.
    pub open spec fn default_spec() -> ExecutionStats {
        ExecutionStats {
            duration_ms: 0,
            exploration_tokens: 0,
            generation_tokens: 0,
            execution_tokens: 0,
            total_tokens: 0,
            items_processed: 0,
            items_failed: 0,
            script_reused: false,
            pure_cv_estimated_tokens: 0,
        }
    }
}

impl Default for BatchExecutionResult {
    fn default() -> (r: Self)
        ensures
            r.success,
            r.results@.len() == 0,
            r.total_items == 0,
            r.successful_items == 0,
            r.failed_items == 0,
            r.total_duration_ms == 0,
            r.wf(),
    {
        Self::new()
    }
}

/// The outcome of one item as reported by a script's output.
#[derive(Debug, Clone)]
pub struct ItemOutcome {
    /// Whether the item succeeded (`false` when the output does not say).
    pub success: bool,
    /// The item's error message, if any.
    pub error: Option<String>,
    /// The item's whole report.
    pub output: serde_json::Value,
}

/// What the code-execution service reported for a run.
#[derive(Debug, Clone)]
pub struct ExecutionOutcome {
    /// Whether the run succeeded.
    pub success: bool,
    /// The per-item reports, when the output was JSON with a `results` array.
    pub item_results: Option<Vec<ItemOutcome>>,
    /// Structured data returned by the run.
    pub data: Option<serde_json::Value>,
    /// The error message of a failed run.
    pub error_message: Option<String>,
    /// Duration of the run in milliseconds.
    pub duration_ms: u64,
}

/// The per-item reports of a run's output: the entries of the `results`
/// array when the output is JSON holding one.
pub open spec fn reported_items(output: Seq<char>) -> Option<Seq<serde_json::Value>> {
    match parsed_json(output) {
        Some(v) => match field_of(v, "results"@) {
            Some(r) => array_of(r),
            None => None,
        },
        None => None,
    }
}

/// The item outcome is what the report `v` says of its item: its `success`
/// flag (false when missing), its `error` text, and the report itself.
pub open spec fn reports_item(o: ItemOutcome, v: serde_json::Value) -> bool {
    &&& o.success == bool_field_or(v, "success"@, false)
    &&& match o.error {
        Some(e) => str_field(v, "error"@) == Some(e@),
        None => str_field(v, "error"@) is None,
    }
    &&& o.output == v
}

/// Reads the per-item reports out of a run's output text: `None` unless the
/// output is JSON with a `results` array, else one outcome per entry.
pub fn read_item_reports(output: &str) -> (r: Option<Vec<ItemOutcome>>)
    ensures
        match reported_items(output@) {
            None => r is None,
            Some(vs) => r matches Some(items) && items@.len() == vs.len() && forall|i: int|
                0 <= i < vs.len() ==> reports_item(#[trigger] items@[i], vs[i]),
        },
{
    let parsed = match json_parse(output) {
        Some(v) => v,
        None => return None,
    };
    let results = match json_field(&parsed, "results") {
        Some(r) => r,
        None => return None,
    };
    let arr = match json_as_array(results) {
        Some(a) => a,
        None => return None,
    };
    let mut out: Vec<ItemOutcome> = Vec::new();
    let mut i: usize = 0;
    while i < arr.len()
        invariant
            0 <= i <= arr@.len(),
            out@.len() == i,
            forall|k: int| 0 <= k < i ==> reports_item(#[trigger] out@[k], arr@[k]),
        decreases arr.len() - i,
    {
        let v = &arr[i];
        let o = ItemOutcome {
            success: get_bool_or(v, "success", false),
            error: get_str(v, "error"),
            output: v.clone(),
        };
        out.push(o);
        i = i + 1;
    }
    Some(out)
}

/// The outcome of a run as the code-execution service reports it: the
/// per-item reports are read from the output of a successful run.
pub fn outcome_from_report(
    success: bool,
    output: Option<&str>,
    data: Option<serde_json::Value>,
    error_message: Option<String>,
    duration_ms: u64,
) -> (r: ExecutionOutcome)
    ensures
        r.success == success,
        r.data == data,
        r.error_message == error_message,
        r.duration_ms == duration_ms,
        !success ==> r.item_results is None,
        success ==> match output {
            None => r.item_results is None,
            Some(text) => match reported_items(text@) {
                None => r.item_results is None,
                Some(vs) => r.item_results matches Some(items) && items@.len() == vs.len()
                    && forall|i: int| 0 <= i < vs.len() ==> reports_item(#[trigger] items@[i], vs[i]),
            },
        },
{
    let item_results = if success {
        match output {
            Some(text) => read_item_reports(text),
            None => None,
        }
    } else {
        None
    };
    ExecutionOutcome { success, item_results, data, error_message, duration_ms }
}

/// The results recorded for an execution outcome: one per reported item when
/// the run succeeded and reported items, else one success per data item when
/// it succeeded, else one failure per data item.
pub open spec fn outcome_results(o: ExecutionOutcome, data_count: nat) -> Seq<ItemView> {
    if o.success {
        match o.item_results {
            Some(items) => Seq::new(
                items@.len(),
                |i: int|
                    ItemView {
                        index: i as usize,
                        success: items@[i].success,
                        output: Some(items@[i].output),
                        error: match items@[i].error {
                            Some(e) => Some(e@),
                            None => None,
                        },
                        duration_ms: (o.duration_ms as nat / data_count) as u64,
                    },
            ),
            None => Seq::new(
                data_count,
                |i: int|
                    ItemView {
                        index: i as usize,
                        success: true,
                        output: o.data,
                        error: None,
                        duration_ms: (o.duration_ms as nat / data_count) as u64,
                    },
            ),
        }
    } else {
        failures(
            data_count,
            match o.error_message {
                Some(m) => m@,
                None => "Unknown error"@,
            },
        )
    }
}

/// `count` failed results carrying the given message.
pub open spec fn failures(count: nat, message: Seq<char>) -> Seq<ItemView> {
    Seq::new(
        count,
        |i: int|
            ItemView {
                index: i as usize,
                success: false,
                output: None,
                error: Some(message),
                duration_ms: 0,
            },
    )
}

/// The injected-data wrapper of a script of the given type, around its code
/// and the JSON text of its data.
pub open spec fn wrapped_script(t: ScriptType, data_json: Seq<char>, code: Seq<char>) -> Seq<char> {
    match t {
        ScriptType::Playwright | ScriptType::Puppeteer => JS_WRAP_HEAD@ + data_json + JS_WRAP_CODE@
            + code + JS_WRAP_TAIL@,
        ScriptType::Selenium | ScriptType::RestApi | ScriptType::GraphQl => PY_WRAP_HEAD@
            + data_json + PY_WRAP_CODE@ + code + PY_WRAP_TAIL@,
        ScriptType::Native => code,
    }
}

/// The opening of the JavaScript data wrapper.
pub const JS_WRAP_HEAD: &'static str = "\n// Injected data\nconst __DATA__ = ";

/// The part of the JavaScript data wrapper before the script's code.
pub const JS_WRAP_CODE: &'static str = ";\n\n// Original script\n";

/// The closing of the JavaScript data wrapper.
pub const JS_WRAP_TAIL: &'static str = "\n\n// Execute with data\n(async () => {\n    if (typeof processData === 'function') {\n        const results = await processData(__DATA__);\n        console.log(JSON.stringify({ success: true, results }));\n    } else if (typeof main === 'function') {\n        await main(__DATA__);\n    }\n})().catch(e => console.log(JSON.stringify({ success: false, error: e.message })));\n";

/// The opening of the Python data wrapper.
pub const PY_WRAP_HEAD: &'static str = "\nimport json\nimport sys\n\n# Injected data\n__DATA__ = ";

/// The part of the Python data wrapper before the script's code.
pub const PY_WRAP_CODE: &'static str = "\n\n# Original script\n";

/// The closing of the Python data wrapper.
pub const PY_WRAP_TAIL: &'static str = "\n\n# Execute with data\nif __name__ == '__main__':\n    try:\n        if 'process_data' in dir():\n            results = process_data(__DATA__)\n            print(json.dumps({'success': True, 'results': results}))\n        elif 'main' in dir():\n            main(__DATA__)\n    except Exception as e:\n        print(json.dumps({'success': False, 'error': str(e)}))\n        sys.exit(1)\n";

/// The compact JSON text of an array of JSON values, as `serde_json` writes
/// it.
pub uninterp spec fn json_array_text(data: Seq<serde_json::Value>) -> Seq<char>;

/// `serde_json::to_string` on a slice of JSON values: the named
/// `json_array_text`.  Writing `Value`s into a string cannot fail (the
/// writer is a `Vec`, and a `Value` holds only finite numbers and string
/// keys), so the result is `Ok`; a failure would carry the error's text.
#[verifier::external_body]
fn data_to_json(data: &[serde_json::Value]) -> (r: Result<String, String>)
    ensures
        match r {
            Ok(t) => t@ == json_array_text(data@),
            Err(_) => false,
        },
{
    serde_json::to_string(data).map_err(|e| e.to_string())
}

/// Configuration of the script executor.
#[derive(Debug, Clone)]
pub struct ScriptExecutorConfig {
    /// Default timeout (milliseconds).
    pub default_timeout_ms: u64,
    /// Default max parallel.
    pub default_max_parallel: usize,
    /// Whether to enable logging.
    pub enable_logging: bool,
    /// Working directory for script execution.
    pub working_dir: Option<String>,
}

impl Default for ScriptExecutorConfig {
    fn default() -> (r: Self)
        ensures
            r.default_timeout_ms == 300000,
            r.default_max_parallel == 5,
            r.enable_logging,
            r.working_dir is None,
    {
        ScriptExecutorConfig {
            default_timeout_ms: 300000,
            default_max_parallel: 5,
            enable_logging: true,
            working_dir: None,
        }
    }
}

/// The script executor: runs automation scripts through a code-execution
/// service.  `H` is the handle of that service's router.
pub struct ScriptExecutor<H> {
    hybrid_router: Option<H>,
    config: ScriptExecutorConfig,
}

impl<H> ScriptExecutor<H> {
    /// The router, if one was given.
    pub closed spec fn router_spec(&self) -> Option<H> {
        self.hybrid_router
    }

    /// The configuration.
    pub closed spec fn config_spec(&self) -> ScriptExecutorConfig {
        self.config
    }

    /// An executor without a router and with the default configuration.
    pub fn new() -> (r: Self)
        ensures
            r.router_spec() is None,
            r.config_spec().default_timeout_ms == 300000,
            r.config_spec().default_max_parallel == 5,
            r.config_spec().enable_logging,
            r.config_spec().working_dir is None,
    {
        ScriptExecutor { hybrid_router: None, config: ScriptExecutorConfig::default() }
    }

    /// Create a builder.
    pub fn builder() -> (r: ScriptExecutorBuilder<H>)
        ensures
            r.router_spec() is None,
            r.config_spec().default_timeout_ms == 300000,
            r.config_spec().default_max_parallel == 5,
            r.config_spec().enable_logging,
            r.config_spec().working_dir is None,
    {
        ScriptExecutorBuilder::new()
    }

    /// The router, if one was given.
    pub fn router(&self) -> (r: Option<&H>)
        ensures
            match r {
                Some(h) => self.router_spec() == Some(*h),
                None => self.router_spec() is None,
            },
    {
        match &self.hybrid_router {
            Some(h) => Some(h),
            None => None,
        }
    }

    /// The configuration.
    pub fn config(&self) -> (r: &ScriptExecutorConfig)
        ensures
            *r == self.config_spec(),
    {
        &self.config
    }

    /// Wrap a script's code so that it runs on the given data.
    pub fn wrap_script_with_data(
        &self,
        script_type: ScriptType,
        code: &str,
        data: &[serde_json::Value],
    ) -> (r: Result<String, ExecutorError>)
        ensures
            r matches Ok(w) && w@ == wrapped_script(script_type, json_array_text(data@), code@),
    {
        match data_to_json(data) {
            Ok(json) => Ok(self.wrap_with_data_json(script_type, code, json.as_str())),
            Err(e) => {
                let mut m = to_owned("Data serialization failed: ");
                push_str(&mut m, e.as_str());
                proof {
                    assert(m@.subrange(0, "Data serialization failed: "@.len() as int)
                        =~= "Data serialization failed: "@);
                }
                Err(ExecutorError::InvalidScript(m))
            },
        }
    }

    /// Wrap a script's code around the JSON text of its data.
    pub fn wrap_with_data_json(&self, script_type: ScriptType, code: &str, data_json: &str) -> (r:
        String)
        ensures
            r@ == wrapped_script(script_type, data_json@, code@),
    {
        match script_type {
            ScriptType::Playwright | ScriptType::Puppeteer => {
                let mut s = to_owned(JS_WRAP_HEAD);
                push_str(&mut s, data_json);
                push_str(&mut s, JS_WRAP_CODE);
                push_str(&mut s, code);
                push_str(&mut s, JS_WRAP_TAIL);
                s
            },
            ScriptType::Selenium | ScriptType::RestApi | ScriptType::GraphQl => {
                let mut s = to_owned(PY_WRAP_HEAD);
                push_str(&mut s, data_json);
                push_str(&mut s, PY_WRAP_CODE);
                push_str(&mut s, code);
                push_str(&mut s, PY_WRAP_TAIL);
                s
            },
            ScriptType::Native => to_owned(code),
        }
    }

    /// Record what a run reported: one result per reported item when the run
    /// succeeded and reported items, else one success per data item when it
    /// succeeded, else one failure per data item with the run's error.
    pub fn record_execution_output(
        &self,
        outcome: &ExecutionOutcome,
        data_count: usize,
        batch: &mut BatchExecutionResult,
    )
        requires
            outcome.success ==> (outcome.item_results matches Some(items) && items@.len() > 0)
                ==> data_count > 0,
            old(batch).total_items + outcome_results(*outcome, data_count as nat).len()
                <= usize::MAX,
            old(batch).successful_items + outcome_results(*outcome, data_count as nat).len()
                <= usize::MAX,
            old(batch).failed_items + outcome_results(*outcome, data_count as nat).len()
                <= usize::MAX,
        ensures
            final(batch).view_batch() == with_results(
                old(batch).view_batch(),
                outcome_results(*outcome, data_count as nat),
            ),
            old(batch).wf() ==> final(batch).wf(),
    {
        let ghost start = batch.view_batch();
        let ghost want = outcome_results(*outcome, data_count as nat);
        proof {
            assert(want.take(0) =~= Seq::<ItemView>::empty());
        }
        if outcome.success {
            match &outcome.item_results {
                Some(items) => {
                    let mut i: usize = 0;
                    while i < items.len()
                        invariant
                            0 <= i <= items@.len(),
                            outcome.success,
                            outcome.item_results == Some(*items),
                            items@.len() > 0 ==> data_count > 0,
                            want == outcome_results(*outcome, data_count as nat),
                            want.len() == items@.len(),
                            start.total_items + want.len() <= usize::MAX,
                            start.successful_items + want.len() <= usize::MAX,
                            start.failed_items + want.len() <= usize::MAX,
                            batch.view_batch() == with_results(start, want.take(i as int)),
                        decreases items.len() - i,
                    {
                        proof {
                            lemma_with_results_counts(start, want.take(i as int));
                        }
                        let item = &items[i];
                        let r = ItemExecutionResult {
                            index: i,
                            success: item.success,
                            output: Some(item.output.clone()),
                            error: match &item.error {
                                Some(e) => Some(e.clone()),
                                None => None,
                            },
                            duration_ms: outcome.duration_ms / (data_count as u64),
                        };
                        batch.add_result(r);
                        proof {
                            assert(want.take(i + 1).drop_last() =~= want.take(i as int));
                            assert(r.view_item() == want[i as int]);
                        }
                        i = i + 1;
                    }
                    proof {
                        assert(want.take(items@.len() as int) =~= want);
                    }
                },
                None => {
                    let mut i: usize = 0;
                    while i < data_count
                        invariant
                            0 <= i <= data_count,
                            outcome.success,
                            outcome.item_results is None,
                            want == outcome_results(*outcome, data_count as nat),
                            want.len() == data_count,
                            start.total_items + want.len() <= usize::MAX,
                            start.successful_items + want.len() <= usize::MAX,
                            start.failed_items + want.len() <= usize::MAX,
                            batch.view_batch() == with_results(start, want.take(i as int)),
                        decreases data_count - i,
                    {
                        proof {
                            lemma_with_results_counts(start, want.take(i as int));
                        }
                        let r = ItemExecutionResult {
                            index: i,
                            success: true,
                            output: match &outcome.data {
                                Some(d) => Some(d.clone()),
                                None => None,
                            },
                            error: None,
                            duration_ms: outcome.duration_ms / (data_count as u64),
                        };
                        batch.add_result(r);
                        proof {
                            assert(want.take(i + 1).drop_last() =~= want.take(i as int));
                            assert(r.view_item() == want[i as int]);
                        }
                        i = i + 1;
                    }
                    proof {
                        assert(want.take(data_count as int) =~= want);
                    }
                },
            }
        } else {
            let error = match &outcome.error_message {
                Some(m) => m.clone(),
                None => to_owned("Unknown error"),
            };
            self.fail_all(data_count, error.as_str(), batch);
        }
        proof {
            if old(batch).wf() {
                lemma_with_results_wf(start, want);
            }
        }
    }

    /// Record `count` failed items carrying the given message.
    pub fn fail_all(&self, count: usize, message: &str, batch: &mut BatchExecutionResult)
        requires
            old(batch).total_items + count <= usize::MAX,
            old(batch).failed_items + count <= usize::MAX,
        ensures
            final(batch).view_batch() == with_results(
                old(batch).view_batch(),
                failures(count as nat, message@),
            ),
            old(batch).wf() ==> final(batch).wf(),
    {
        let ghost start = batch.view_batch();
        let ghost fs = failures(count as nat, message@);
        proof {
            assert(fs.take(0) =~= Seq::<ItemView>::empty());
        }
        let mut i: usize = 0;
        while i < count
            invariant
                0 <= i <= count,
                fs == failures(count as nat, message@),
                start.total_items + count <= usize::MAX,
                start.failed_items + count <= usize::MAX,
                batch.view_batch() == with_results(start, fs.take(i as int)),
            decreases count - i,
        {
            proof {
                lemma_with_results_counts(start, fs.take(i as int));
                lemma_failures_ok(fs.take(i as int));
            }
            let r = ItemExecutionResult {
                index: i,
                success: false,
                output: None,
                error: Some(to_owned(message)),
                duration_ms: 0,
            };
            batch.add_result(r);
            proof {
                assert(fs.take(i + 1).drop_last() =~= fs.take(i as int));
                assert(r.view_item() == fs[i as int]);
            }
            i = i + 1;
        }
        proof {
            assert(fs.take(count as int) =~= fs);
            if old(batch).wf() {
                lemma_with_results_wf(start, fs);
            }
        }
    }
}

/// Failure lists hold no success.
pub proof fn lemma_failures_ok(fs: Seq<ItemView>)
    requires
        forall|k: int| 0 <= k < fs.len() ==> !(#[trigger] fs[k]).success,
    ensures
        count_ok(fs) == 0,
    decreases fs.len(),
{
    if fs.len() > 0 {
        lemma_failures_ok(fs.drop_last());
    }
}

impl<H> Default for ScriptExecutor<H> {
    fn default() -> (r: Self)
        ensures
            r.router_spec() is None,
            r.config_spec().default_timeout_ms == 300000,
            r.config_spec().default_max_parallel == 5,
            r.config_spec().enable_logging,
            r.config_spec().working_dir is None,
    {
        Self::new()
    }
}

/// Builder for a script executor.
pub struct ScriptExecutorBuilder<H> {
    hybrid_router: Option<H>,
    config: ScriptExecutorConfig,
}

impl<H> ScriptExecutorBuilder<H> {
    /// The router set so far.
    pub closed spec fn router_spec(&self) -> Option<H> {
        self.hybrid_router
    }

    /// The configuration so far.
    pub closed spec fn config_spec(&self) -> ScriptExecutorConfig {
        self.config
    }

    /// A builder with no router and the default configuration.
    pub fn new() -> (r: Self)
        ensures
            r.router_spec() is None,
            r.config_spec().default_timeout_ms == 300000,
            r.config_spec().default_max_parallel == 5,
            r.config_spec().enable_logging,
            r.config_spec().working_dir is None,
    {
        ScriptExecutorBuilder { hybrid_router: None, config: ScriptExecutorConfig::default() }
    }

    /// Set the router.
    pub fn hybrid_router(self, router: H) -> (r: Self)
        ensures
            r.router_spec() == Some(router),
            r.config_spec() == self.config_spec(),
    {
        let mut b = self;
        b.hybrid_router = Some(router);
        b
    }

    /// Set the default timeout.
    pub fn default_timeout(self, timeout_ms: u64) -> (r: Self)
        ensures
            r.config_spec() == (ScriptExecutorConfig {
                default_timeout_ms: timeout_ms,
                ..self.config_spec()
            }),
            r.router_spec() == self.router_spec(),
    {
        let mut b = self;
        b.config.default_timeout_ms = timeout_ms;
        b
    }

    /// Set the default parallelism.
    pub fn default_max_parallel(self, max: usize) -> (r: Self)
        ensures
            r.config_spec() == (ScriptExecutorConfig { default_max_parallel: max, ..self.config_spec() }),
            r.router_spec() == self.router_spec(),
    {
        let mut b = self;
        b.config.default_max_parallel = max;
        b
    }

    /// Set the working directory.
    pub fn working_dir(self, dir: &str) -> (r: Self)
        ensures
            r.config_spec().working_dir is Some,
            opt_view(r.config_spec().working_dir) == Some(dir@),
            r.config_spec().default_timeout_ms == self.config_spec().default_timeout_ms,
            r.config_spec().default_max_parallel == self.config_spec().default_max_parallel,
            r.config_spec().enable_logging == self.config_spec().enable_logging,
            r.router_spec() == self.router_spec(),
    {
        let mut b = self;
        b.config.working_dir = Some(to_owned(dir));
        b
    }

    /// Enable or disable logging.
    pub fn enable_logging(self, enable: bool) -> (r: Self)
        ensures
            r.config_spec() == (ScriptExecutorConfig { enable_logging: enable, ..self.config_spec() }),
            r.router_spec() == self.router_spec(),
    {
        let mut b = self;
        b.config.enable_logging = enable;
        b
    }

    /// Build the executor.
    pub fn build(self) -> (r: ScriptExecutor<H>)
        ensures
            r.router_spec() == self.router_spec(),
            r.config_spec() == self.config_spec(),
    {
        ScriptExecutor { hybrid_router: self.hybrid_router, config: self.config }
    }
}

impl<H> Default for ScriptExecutorBuilder<H> {
    fn default() -> (r: Self)
        ensures
            r.router_spec() is None,
            r.config_spec().default_timeout_ms == 300000,
            r.config_spec().default_max_parallel == 5,
            r.config_spec().enable_logging,
            r.config_spec().working_dir is None,
    {
        Self::new()
    }
}

} // verus!
