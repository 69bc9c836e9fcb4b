//! The runtime of programmatic tool calling: what it holds, and the decisions
//! it makes around a sandbox run.
use vstd::prelude::*;

use crate::json::{json_parse, parsed_json};
use crate::text::{
    chars_of, decimal, push_signed_decimal, push_str, str_eq, string_from_range, to_owned, trim,
    trim_string,
};

verus! {

/// Runs code-orchestration requests.  `R` is the handle of the tool registry,
/// `E` that of the sandbox code executor and `C` the configuration.
pub struct CodeOrchestrationRuntime<R, E, C> {
    tool_registry: R,
    code_executor: Option<E>,
    config: C,
}

/// Whether code orchestration supports a language.
pub open spec fn supported_language(language: Seq<char>) -> bool {
    language == "python"@ || language == "javascript"@
}

/// The text reported for a run that exited with a non-zero code: the code and
/// the first 500 characters of the error stream.
pub open spec fn exit_error_text(exit_code: i32, stderr: Seq<char>) -> Seq<char> {
    "Code exited with code "@ + crate::text::signed_decimal(exit_code as int) + ". stderr: "@
        + stderr.take(if stderr.len() < 500 {
        stderr.len() as int
    } else {
        500
    })
}

impl<R, E, C> CodeOrchestrationRuntime<R, E, C> {
    /// The tool registry.
    pub closed spec fn registry_spec(&self) -> R {
        self.tool_registry
    }

    /// The code executor, if one was given.
    pub closed spec fn executor_spec(&self) -> Option<E> {
        self.code_executor
    }

    /// The configuration.
    pub closed spec fn config_spec(&self) -> C {
        self.config
    }

    /// A runtime over the given registry, without a code executor.
    pub fn new(tool_registry: R, config: C) -> (r: Self)
        ensures
            r.registry_spec() == tool_registry,
            r.executor_spec() is None,
            r.config_spec() == config,
    {
        CodeOrchestrationRuntime { tool_registry, code_executor: None, config }
    }

    /// Set the code executor (for sandbox execution).
    pub fn with_code_executor(self, executor: E) -> (r: Self)
        ensures
            r.registry_spec() == self.registry_spec(),
            r.executor_spec() == Some(executor),
            r.config_spec() == self.config_spec(),
    {
        let mut s = self;
        s.code_executor = Some(executor);
        s
    }

    /// The tool registry.
    pub fn tool_registry(&self) -> (r: &R)
        ensures
            *r == self.registry_spec(),
    {
        &self.tool_registry
    }

    /// The code executor, if one was given.
    pub fn code_executor(&self) -> (r: Option<&E>)
        ensures
            match r {
                Some(e) => self.executor_spec() == Some(*e),
                None => self.executor_spec() is None,
            },
    {
        match &self.code_executor {
            Some(e) => Some(e),
            None => None,
        }
    }

    /// The configuration.
    pub fn config(&self) -> (r: &C)
        ensures
            *r == self.config_spec(),
    {
        &self.config
    }

    /// Whether code orchestration supports a language.
    pub fn is_supported_language(language: &str) -> (r: bool)
        ensures
            r == supported_language(language@),
    {
        str_eq(language, "python") || str_eq(language, "javascript")
    }

    /// The message refusing an unsupported language.
    pub fn unsupported_language_message(language: &str) -> (r: String)
        ensures
            r@ == "Code orchestration only supports 'python' and 'javascript', got '"@
                + language@ + "'"@,
    {
        let mut s = to_owned("Code orchestration only supports 'python' and 'javascript', got '");
        push_str(&mut s, language);
        push_str(&mut s, "'");
        s
    }

    /// The code sent to the sandbox: the preamble, a line break, then the code.
    pub fn full_code(preamble: &str, code: &str) -> (r: String)
        ensures
            r@ == preamble@ + "\n"@ + code@,
    {
        let mut s = to_owned(preamble);
        push_str(&mut s, "\n");
        push_str(&mut s, code);
        s
    }

    /// The value a finished run returns: its whole output, trimmed, read as
    /// JSON, when it exited with 0 and printed something.
    pub fn return_value(exit_code: i32, stdout: &str) -> (r: Option<serde_json::Value>)
        ensures
            r == if exit_code == 0 && trim(stdout@).len() > 0 {
                parsed_json(trim(stdout@))
            } else {
                None
            },
    {
        if exit_code != 0 {
            return None;
        }
        let trimmed = trim_string(stdout);
        proof {
            crate::text::lemma_byte_len_ge_len(trimmed@);
        }
        if crate::text::str_byte_len(trimmed.as_str()) == 0 {
            return None;
        }
        json_parse(trimmed.as_str())
    }

    /// The error of a finished run: none when it exited with 0.
    pub fn exit_error(exit_code: i32, stderr: &str) -> (r: Option<String>)
        ensures
            exit_code == 0 ==> r is None,
            exit_code != 0 ==> (r matches Some(e) && e@ == exit_error_text(exit_code, stderr@)),
    {
        if exit_code == 0 {
            return None;
        }
        let mut s = to_owned("Code exited with code ");
        push_signed_decimal(&mut s, exit_code as i64);
        push_str(&mut s, ". stderr: ");
        let c = chars_of(stderr);
        let n = if c.len() < 500 {
            c.len()
        } else {
            500
        };
        let head = string_from_range(c.as_slice(), 0, n);
        push_str(&mut s, head.as_str());
        proof {
            assert(c@.subrange(0, n as int) =~= stderr@.take(n as int));
        }
        Some(s)
    }
}

/// What a sandbox run printed and how it exited.
#[derive(Debug, Clone)]
pub struct SandboxResult {
    /// Standard output.
    pub stdout: String,
    /// Standard error.
    pub stderr: String,
    /// Exit code.
    pub exit_code: i32,
}

/// Why a request is refused before anything runs.
#[derive(Debug, Clone, PartialEq, Eq)]
pub enum RunRefusal {
    /// Code orchestration is switched off.
    NotEnabled,
    /// The language is neither Python nor JavaScript; the message says so.
    UnsupportedLanguage(String),
}

/// The refusal of a request, if any: switched off first, then a language
/// other than Python and JavaScript.
pub fn request_refusal(enabled: bool, language: &str) -> (r: Option<RunRefusal>)
    ensures
        !enabled ==> r == Some(RunRefusal::NotEnabled),
        enabled && !supported_language(language@) ==> (r matches Some(
            RunRefusal::UnsupportedLanguage(m),
        ) && m@ == "Code orchestration only supports 'python' and 'javascript', got '"@
            + language@ + "'"@),
        enabled && supported_language(language@) ==> r is None,
{
    if !enabled {
        return Some(RunRefusal::NotEnabled);
    }
    if !(str_eq(language, "python") || str_eq(language, "javascript")) {
        let mut s = to_owned("Code orchestration only supports 'python' and 'javascript', got '");
        push_str(&mut s, language);
        push_str(&mut s, "'");
        return Some(RunRefusal::UnsupportedLanguage(s));
    }
    None
}

impl RunRefusal {
    /// The text of the refusal.
    pub fn message(&self) -> (r: String)
        ensures
            match self {
                RunRefusal::NotEnabled => r@ == "Code orchestration is not enabled"@,
                RunRefusal::UnsupportedLanguage(m) => r@ == m@,
            },
    {
        match self {
            RunRefusal::NotEnabled => to_owned("Code orchestration is not enabled"),
            RunRefusal::UnsupportedLanguage(m) => m.clone(),
        }
    }
}

/// The outcome of a request's run, without the tool calls and the timing.
#[derive(Debug, Clone)]
pub struct RunOutcome {
    /// Whether the code exited with 0.
    pub success: bool,
    /// The JSON value the code printed, if any.
    pub return_value: Option<serde_json::Value>,
    /// Standard output.
    pub stdout: String,
    /// Standard error.
    pub stderr: String,
    /// Exit code (-1 when the sandbox itself failed).
    pub exit_code: i32,
    /// Error description, if any.
    pub error: Option<String>,
}

/// The outcome of a sandbox run: success on exit code 0, the printed JSON
/// value then, the exit error otherwise; a sandbox failure gives exit code
/// -1, no output and its message as both the error output and the error.
pub fn run_outcome(run: Result<SandboxResult, String>) -> (r: RunOutcome)
    ensures
        match run {
            Ok(exec) => {
                &&& r.success == (exec.exit_code == 0)
                &&& r.return_value == if exec.exit_code == 0 && trim(exec.stdout@).len() > 0 {
                    parsed_json(trim(exec.stdout@))
                } else {
                    None
                }
                &&& r.stdout@ == exec.stdout@
                &&& r.stderr@ == exec.stderr@
                &&& r.exit_code == exec.exit_code
                &&& if exec.exit_code == 0 {
                    r.error is None
                } else {
                    r.error matches Some(e) && e@ == exit_error_text(exec.exit_code, exec.stderr@)
                }
            },
            Err(e) => {
                &&& !r.success
                &&& r.return_value is None
                &&& r.stdout@.len() == 0
                &&& r.stderr@ == e@
                &&& r.exit_code == -1
                &&& r.error matches Some(m) && m@ == e@
            },
        },
{
    match run {
        Ok(exec) => {
            let return_value = CodeOrchestrationRuntime::<(), (), ()>::return_value(
                exec.exit_code,
                exec.stdout.as_str(),
            );
            let error = CodeOrchestrationRuntime::<(), (), ()>::exit_error(
                exec.exit_code,
                exec.stderr.as_str(),
            );
            RunOutcome {
                success: exec.exit_code == 0,
                return_value,
                stdout: exec.stdout,
                stderr: exec.stderr,
                exit_code: exec.exit_code,
                error,
            }
        },
        Err(e) => RunOutcome {
            success: false,
            return_value: None,
            stdout: String::new(),
            stderr: e.clone(),
            exit_code: -1,
            error: Some(e),
        },
    }
}

} // verus!
