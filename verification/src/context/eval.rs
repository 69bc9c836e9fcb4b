//! Prompt evaluation: static assertions over a prompt string, run case by
//! case and aggregated into a report.
use vstd::prelude::*;

use crate::clock::{elapsed_millis, instant_now};
use crate::text::{
    byte_len, byte_prefix, byte_suffix, char_index_at_byte, char_vecs, chars_of, contains,
    decimal, ends_with, is_boundary, lines, lowercase, push_decimal, push_str, split_lines,
    starts_with, starts_with_chars, str_byte_len, str_contains, str_ends_with, str_eq,
    str_starts_with, string_from_range, to_lowercase, to_owned,
};

verus! {

/// A single evaluation case for testing prompt quality.
pub struct EvalCase {
    /// Name/identifier for this eval case.
    pub name: String,
    /// Description of what this case tests.
    pub description: String,
    /// Input task or prompt to evaluate.
    pub input: String,
    /// Assertions to check against the prompt.
    pub assertions: Vec<EvalAssertion>,
    /// Tags for filtering eval cases.
    pub tags: Vec<String>,
}

/// An assertion to check against a prompt.
pub enum EvalAssertion {
    /// The prompt contains `value`.
    Contains { value: String },
    /// The prompt does not contain `value`.
    NotContains { value: String },
    /// The estimated token count (`byte length / 4`) lies in `[min, max]`.
    TokenRange { min: usize, max: usize },
    /// The prompt contains the section name.
    SectionExists { section_name: String },
    /// The lowercased prompt contains the lowercased skill name.
    SkillIncluded { skill_name: String },
    /// The lowercased prompt does not contain the lowercased skill name.
    SkillExcluded { skill_name: String },
    /// The prompt contains `[Knowledge]` or `learned knowledge`.
    KnowledgeInjected,
    /// The prompt starts with `prefix`.
    StartsWith { prefix: String },
    /// The prompt ends with `suffix`.
    EndsWith { suffix: String },
    /// Some line of the prompt starts with `prefix`.
    LineStartsWith { prefix: String },
    /// The character length of the prompt lies in `[min, max]`.
    LengthRange { min: usize, max: usize },
}

/// Result of running a single eval case.
pub struct EvalResult {
    /// Name of the eval case.
    pub case_name: String,
    /// Whether all assertions passed.
    pub passed: bool,
    /// Individual assertion results.
    pub assertions: Vec<AssertionResult>,
    /// Duration of the eval in milliseconds.
    pub duration_ms: u64,
}

/// Result of a single assertion check.
pub struct AssertionResult {
    /// Description of the assertion.
    pub description: String,
    /// Whether this assertion passed.
    pub passed: bool,
    /// Optional message explaining the result.
    pub message: Option<String>,
}

/// Aggregated result of running eval cases.
pub struct EvalReport {
    /// Individual case results.
    pub results: Vec<EvalResult>,
    /// Total cases run.
    pub total: usize,
    /// Cases passed.
    pub passed: usize,
    /// Cases failed.
    pub failed: usize,
    /// Total duration in milliseconds.
    pub total_duration_ms: u64,
}

/// The characters of an optional string.
pub open spec fn opt_chars(o: Option<String>) -> Option<Seq<char>> {
    match o {
        Some(s) => Some(s@),
        None => None,
    }
}

/// Some line of `p` starts with `prefix`.
pub open spec fn some_line_starts_with(p: Seq<char>, prefix: Seq<char>) -> bool {
    exists|k: int| 0 <= k < lines(p).len() && starts_with(#[trigger] lines(p)[k], prefix)
}

/// Byte offset at which the start-of-prompt excerpt of a failed `StartsWith` ends.
pub open spec fn start_excerpt_end(p: Seq<char>, prefix: Seq<char>) -> int {
    if byte_len(p) <= byte_len(prefix) + 20 {
        byte_len(p) as int
    } else {
        (byte_len(prefix) + 20) as int
    }
}

/// Byte offset at which the end-of-prompt excerpt of a failed `EndsWith` begins.
pub open spec fn end_excerpt_start(p: Seq<char>, suffix: Seq<char>) -> int {
    if byte_len(p) <= byte_len(suffix) + 20 {
        0
    } else {
        byte_len(p) - (byte_len(suffix) + 20)
    }
}

impl EvalAssertion {
    /// Whether the assertion holds of prompt `p`.
    pub open spec fn passes(self, p: Seq<char>) -> bool {
        match self {
            EvalAssertion::Contains { value } => contains(p, value@),
            EvalAssertion::NotContains { value } => !contains(p, value@),
            EvalAssertion::TokenRange { min, max } => min <= byte_len(p) / 4 <= max,
            EvalAssertion::SectionExists { section_name } => contains(p, section_name@),
            EvalAssertion::SkillIncluded { skill_name } => contains(
                lowercase(p),
                lowercase(skill_name@),
            ),
            EvalAssertion::SkillExcluded { skill_name } => !contains(
                lowercase(p),
                lowercase(skill_name@),
            ),
            EvalAssertion::KnowledgeInjected => contains(p, "[Knowledge]"@) || contains(
                p,
                "learned knowledge"@,
            ),
            EvalAssertion::StartsWith { prefix } => starts_with(p, prefix@),
            EvalAssertion::EndsWith { suffix } => ends_with(p, suffix@),
            EvalAssertion::LineStartsWith { prefix } => some_line_starts_with(p, prefix@),
            EvalAssertion::LengthRange { min, max } => min <= p.len() <= max,
        }
    }

    /// The human-readable description of the assertion.
    pub open spec fn description(self) -> Seq<char> {
        match self {
            EvalAssertion::Contains { value } => "Contains '"@ + value@ + "'"@,
            EvalAssertion::NotContains { value } => "Does not contain '"@ + value@ + "'"@,
            EvalAssertion::TokenRange { min, max } => "Token count in range ["@ + decimal(
                min as nat,
            ) + ", "@ + decimal(max as nat) + "]"@,
            EvalAssertion::SectionExists { section_name } => "Section '"@ + section_name@
                + "' exists"@,
            EvalAssertion::SkillIncluded { skill_name } => "Skill '"@ + skill_name@
                + "' included"@,
            EvalAssertion::SkillExcluded { skill_name } => "Skill '"@ + skill_name@
                + "' excluded"@,
            EvalAssertion::KnowledgeInjected => "Knowledge injected"@,
            EvalAssertion::StartsWith { prefix } => "Starts with '"@ + prefix@ + "'"@,
            EvalAssertion::EndsWith { suffix } => "Ends with '"@ + suffix@ + "'"@,
            EvalAssertion::LineStartsWith { prefix } => "Has line starting with '"@ + prefix@
                + "'"@,
            EvalAssertion::LengthRange { min, max } => "Character length in range ["@ + decimal(
                min as nat,
            ) + ", "@ + decimal(max as nat) + "]"@,
        }
    }

    /// The explanatory message attached to the result on prompt `p`.
    pub open spec fn message(self, p: Seq<char>) -> Option<Seq<char>> {
        match self {
            EvalAssertion::Contains { value } => if contains(p, value@) {
                None
            } else {
                Some("Expected prompt to contain '"@ + value@ + "' but it was not found"@)
            },
            EvalAssertion::NotContains { value } => if !contains(p, value@) {
                None
            } else {
                Some("Expected prompt NOT to contain '"@ + value@ + "' but it was found"@)
            },
            EvalAssertion::TokenRange { .. } => Some(
                "Estimated tokens: "@ + decimal(byte_len(p) / 4),
            ),
            EvalAssertion::SectionExists { section_name } => if contains(p, section_name@) {
                None
            } else {
                Some("Section '"@ + section_name@ + "' not found in prompt"@)
            },
            EvalAssertion::SkillIncluded { skill_name } => if contains(
                lowercase(p),
                lowercase(skill_name@),
            ) {
                None
            } else {
                Some("Skill '"@ + skill_name@ + "' not found in prompt"@)
            },
            EvalAssertion::SkillExcluded { skill_name } => if !contains(
                lowercase(p),
                lowercase(skill_name@),
            ) {
                None
            } else {
                Some("Skill '"@ + skill_name@ + "' should not be in prompt but was found"@)
            },
            EvalAssertion::KnowledgeInjected => if self.passes(p) {
                None
            } else {
                Some("No knowledge injection markers found in prompt"@)
            },
            EvalAssertion::StartsWith { prefix } => if starts_with(p, prefix@) {
                None
            } else {
                Some(
                    "Expected prompt to start with '"@ + prefix@ + "' but it starts with '"@
                        + byte_prefix(p, start_excerpt_end(p, prefix@)) + "'"@,
                )
            },
            EvalAssertion::EndsWith { suffix } => if ends_with(p, suffix@) {
                None
            } else {
                Some(
                    "Expected prompt to end with '"@ + suffix@ + "' but it ends with '"@
                        + byte_suffix(p, end_excerpt_start(p, suffix@)) + "'"@,
                )
            },
            EvalAssertion::LineStartsWith { prefix } => if some_line_starts_with(p, prefix@) {
                None
            } else {
                Some("No line in prompt starts with '"@ + prefix@ + "'"@)
            },
            EvalAssertion::LengthRange { .. } => Some("Actual length: "@ + decimal(p.len())),
        }
    }

    /// The assertion can be checked on `p` without cutting a character in two:
    /// a failed `StartsWith` or `EndsWith` quotes a byte range of the prompt, whose
    /// ends must fall between characters.
    pub open spec fn checkable_on(self, p: Seq<char>) -> bool {
        match self {
            EvalAssertion::StartsWith { prefix } => starts_with(p, prefix@) || is_boundary(
                p,
                start_excerpt_end(p, prefix@),
            ),
            EvalAssertion::EndsWith { suffix } => ends_with(p, suffix@) || is_boundary(
                p,
                end_excerpt_start(p, suffix@),
            ),
            _ => true,
        }
    }
}

/// `r` is the result of checking assertion `a` on prompt `p`.
pub open spec fn checked(r: AssertionResult, a: EvalAssertion, p: Seq<char>) -> bool {
    &&& r.passed == a.passes(p)
    &&& r.description@ == a.description()
    &&& opt_chars(r.message) == a.message(p)
}

impl EvalCase {
    /// Every assertion of the case holds of `p`.
    pub open spec fn passes(self, p: Seq<char>) -> bool {
        forall|i: int| 0 <= i < self.assertions@.len() ==> (#[trigger] self.assertions@[i]).passes(p)
    }

    /// Every assertion of the case can be checked on `p`.
    pub open spec fn checkable_on(self, p: Seq<char>) -> bool {
        forall|i: int|
            0 <= i < self.assertions@.len() ==> (#[trigger] self.assertions@[i]).checkable_on(p)
    }

    /// The case carries one of `tags`.
    pub open spec fn has_any_tag(self, tags: Seq<&str>) -> bool {
        exists|i: int, j: int|
            0 <= i < self.tags@.len() && 0 <= j < tags.len() && (#[trigger] self.tags@[i])@ == (
            #[trigger] tags[j])@
    }
}

/// `r` is the result of evaluating `case` against `p`.
pub open spec fn evaluated(r: EvalResult, case: EvalCase, p: Seq<char>) -> bool {
    &&& r.case_name@ == case.name@
    &&& r.passed == case.passes(p)
    &&& r.assertions@.len() == case.assertions@.len()
    &&& forall|i: int|
        0 <= i < r.assertions@.len() ==> checked(
            #[trigger] r.assertions@[i],
            case.assertions@[i],
            p,
        )
}

/// Number of cases in `cases` that pass on `p`.
pub open spec fn num_passing(cases: Seq<EvalCase>, p: Seq<char>) -> nat
    decreases cases.len(),
{
    if cases.len() == 0 {
        0
    } else {
        num_passing(cases.drop_last(), p) + if cases.last().passes(p) {
            1nat
        } else {
            0nat
        }
    }
}

/// `r` is the report of evaluating `cases`, in order, against `p`.
pub open spec fn reported(r: EvalReport, cases: Seq<EvalCase>, p: Seq<char>) -> bool {
    &&& r.results@.len() == cases.len()
    &&& forall|i: int|
        0 <= i < cases.len() ==> evaluated(#[trigger] r.results@[i], cases[i], p)
    &&& r.total == cases.len()
    &&& r.passed == num_passing(cases, p)
    &&& r.failed == r.total - r.passed
}

/// Names of the failed results, in order.
pub open spec fn failed_names(results: Seq<EvalResult>) -> Seq<Seq<char>>
    decreases results.len(),
{
    if results.len() == 0 {
        seq![]
    } else if results.last().passed {
        failed_names(results.drop_last())
    } else {
        failed_names(results.drop_last()).push(results.last().case_name@)
    }
}

/// `num_passing` never exceeds the number of cases.
pub proof fn lemma_num_passing_le(cases: Seq<EvalCase>, p: Seq<char>)
    ensures
        num_passing(cases, p) <= cases.len(),
    decreases cases.len(),
{
    if cases.len() > 0 {
        lemma_num_passing_le(cases.drop_last(), p);
    }
}

impl EvalReport {
    /// Returns the names of all failed cases.
    pub fn failed_cases(&self) -> (r: Vec<&str>)
        ensures
            Seq::new(r@.len(), |i: int| r@[i]@) == failed_names(self.results@),
    {
        let mut out: Vec<&str> = Vec::new();
        let mut i: usize = 0;
        while i < self.results.len()
            invariant
                0 <= i <= self.results@.len(),
                Seq::new(out@.len(), |k: int| out@[k]@) == failed_names(
                    self.results@.take(i as int),
                ),
            decreases self.results.len() - i,
        {
            let ghost before = out@;
            proof {
                assert(self.results@.take(i + 1).drop_last() =~= self.results@.take(i as int));
            }
            if !self.results[i].passed {
                out.push(self.results[i].case_name.as_str());
                assert(Seq::new(out@.len(), |k: int| out@[k]@) =~= Seq::new(
                    before.len(),
                    |k: int| before[k]@,
                ).push(self.results@[i as int].case_name@));
            }
            i = i + 1;
            assert(Seq::new(out@.len(), |k: int| out@[k]@) =~= failed_names(
                self.results@.take(i as int),
            ));
        }
        assert(self.results@.take(self.results.len() as int) =~= self.results@);
        out
    }

    /// Returns true if all cases passed.
    pub fn all_passed(&self) -> (r: bool)
        ensures
            r == (self.failed == 0),
    {
        self.failed == 0
    }
}

/// `a + b + c` as a new string.
fn concat3(a: &str, b: &str, c: &str) -> (r: String)
    ensures
        r@ == a@ + b@ + c@,
{
    let mut s = to_owned(a);
    push_str(&mut s, b);
    push_str(&mut s, c);
    s
}

/// A failure message: `Some(a + b + c)` when `passed` is false, otherwise `None`.
fn failure_message(passed: bool, a: &str, b: &str, c: &str) -> (r: Option<String>)
    ensures
        opt_chars(r) == if passed {
            None
        } else {
            Some(a@ + b@ + c@)
        },
{
    if passed {
        None
    } else {
        Some(concat3(a, b, c))
    }
}

/// `head + decimal(lo) + ", " + decimal(hi) + "]"`.
fn range_description(head: &str, lo: usize, hi: usize) -> (r: String)
    ensures
        r@ == head@ + decimal(lo as nat) + ", "@ + decimal(hi as nat) + "]"@,
{
    let mut s = to_owned(head);
    push_decimal(&mut s, lo as u64);
    push_str(&mut s, ", ");
    push_decimal(&mut s, hi as u64);
    push_str(&mut s, "]");
    s
}

/// `head + decimal(n)`.
fn count_message(head: &str, n: usize) -> (r: String)
    ensures
        r@ == head@ + decimal(n as nat),
{
    let mut s = to_owned(head);
    push_decimal(&mut s, n as u64);
    s
}

/// Evaluates assertions against a prompt string.
pub struct PromptEvaluator;

impl PromptEvaluator {
    /// Checks one assertion against the prompt.
    fn check_assertion(assertion: &EvalAssertion, prompt: &str) -> (r: AssertionResult)
        requires
            assertion.checkable_on(prompt@),
        ensures
            checked(r, *assertion, prompt@),
    {
        match assertion {
            EvalAssertion::Contains { value } => {
                let passed = str_contains(prompt, value.as_str());
                AssertionResult {
                    description: concat3("Contains '", value.as_str(), "'"),
                    passed,
                    message: failure_message(
                        passed,
                        "Expected prompt to contain '",
                        value.as_str(),
                        "' but it was not found",
                    ),
                }
            },
            EvalAssertion::NotContains { value } => {
                let passed = !str_contains(prompt, value.as_str());
                AssertionResult {
                    description: concat3("Does not contain '", value.as_str(), "'"),
                    passed,
                    message: failure_message(
                        passed,
                        "Expected prompt NOT to contain '",
                        value.as_str(),
                        "' but it was found",
                    ),
                }
            },
            EvalAssertion::TokenRange { min, max } => {
                let estimated_tokens = str_byte_len(prompt) / 4;
                let passed = estimated_tokens >= *min && estimated_tokens <= *max;
                AssertionResult {
                    description: range_description("Token count in range [", *min, *max),
                    passed,
                    message: Some(count_message("Estimated tokens: ", estimated_tokens)),
                }
            },
            EvalAssertion::SectionExists { section_name } => {
                let passed = str_contains(prompt, section_name.as_str());
                AssertionResult {
                    description: concat3("Section '", section_name.as_str(), "' exists"),
                    passed,
                    message: failure_message(
                        passed,
                        "Section '",
                        section_name.as_str(),
                        "' not found in prompt",
                    ),
                }
            },
            EvalAssertion::SkillIncluded { skill_name } => {
                let lp = to_lowercase(prompt);
                let ls = to_lowercase(skill_name.as_str());
                let passed = str_contains(lp.as_str(), ls.as_str());
                AssertionResult {
                    description: concat3("Skill '", skill_name.as_str(), "' included"),
                    passed,
                    message: failure_message(
                        passed,
                        "Skill '",
                        skill_name.as_str(),
                        "' not found in prompt",
                    ),
                }
            },
            EvalAssertion::SkillExcluded { skill_name } => {
                let lp = to_lowercase(prompt);
                let ls = to_lowercase(skill_name.as_str());
                let passed = !str_contains(lp.as_str(), ls.as_str());
                AssertionResult {
                    description: concat3("Skill '", skill_name.as_str(), "' excluded"),
                    passed,
                    message: failure_message(
                        passed,
                        "Skill '",
                        skill_name.as_str(),
                        "' should not be in prompt but was found",
                    ),
                }
            },
            EvalAssertion::KnowledgeInjected => {
                let passed = str_contains(prompt, "[Knowledge]") || str_contains(
                    prompt,
                    "learned knowledge",
                );
                AssertionResult {
                    description: to_owned("Knowledge injected"),
                    passed,
                    message: if !passed {
                        Some(to_owned("No knowledge injection markers found in prompt"))
                    } else {
                        None
                    },
                }
            },
            EvalAssertion::StartsWith { prefix } => {
                let passed = str_starts_with(prompt, prefix.as_str());
                let message = if !passed {
                    let pv = chars_of(prompt);
                    let plen = str_byte_len(prompt);
                    let xlen = str_byte_len(prefix.as_str());
                    let end = if xlen > usize::MAX - 20 || plen <= xlen + 20 {
                        plen
                    } else {
                        xlen + 20
                    };
                    let k = match char_index_at_byte(pv.as_slice(), end) {
                        Some(k) => k,
                        None => {
                            proof {
                                assert(end == start_excerpt_end(prompt@, prefix@));
                            }
                            0
                        },
                    };
                    let excerpt = string_from_range(pv.as_slice(), 0, k);
                    let mut m = concat3(
                        "Expected prompt to start with '",
                        prefix.as_str(),
                        "' but it starts with '",
                    );
                    push_str(&mut m, excerpt.as_str());
                    push_str(&mut m, "'");
                    proof {
                        assert(end == start_excerpt_end(prompt@, prefix@));
                        assert(excerpt@ =~= byte_prefix(prompt@, end as int));
                    }
                    Some(m)
                } else {
                    None
                };
                AssertionResult {
                    description: concat3("Starts with '", prefix.as_str(), "'"),
                    passed,
                    message,
                }
            },
            EvalAssertion::EndsWith { suffix } => {
                let passed = str_ends_with(prompt, suffix.as_str());
                let message = if !passed {
                    let pv = chars_of(prompt);
                    let plen = str_byte_len(prompt);
                    let xlen = str_byte_len(suffix.as_str());
                    let start = if xlen > usize::MAX - 20 || plen <= xlen + 20 {
                        0
                    } else {
                        plen - (xlen + 20)
                    };
                    let k = match char_index_at_byte(pv.as_slice(), start) {
                        Some(k) => k,
                        None => {
                            proof {
                                assert(start == end_excerpt_start(prompt@, suffix@));
                            }
                            0
                        },
                    };
                    let excerpt = string_from_range(pv.as_slice(), k, pv.len());
                    let mut m = concat3(
                        "Expected prompt to end with '",
                        suffix.as_str(),
                        "' but it ends with '",
                    );
                    push_str(&mut m, excerpt.as_str());
                    push_str(&mut m, "'");
                    proof {
                        assert(start == end_excerpt_start(prompt@, suffix@));
                        assert(excerpt@ =~= byte_suffix(prompt@, start as int));
                    }
                    Some(m)
                } else {
                    None
                };
                AssertionResult {
                    description: concat3("Ends with '", suffix.as_str(), "'"),
                    passed,
                    message,
                }
            },
            EvalAssertion::LineStartsWith { prefix } => {
                let ls = split_lines(prompt);
                let pv = chars_of(prefix.as_str());
                let mut passed = false;
                let mut i: usize = 0;
                while i < ls.len()
                    invariant
                        0 <= i <= ls@.len(),
                        char_vecs(ls@) == lines(prompt@),
                        pv@ == prefix@,
                        passed == exists|k: int|
                            0 <= k < i && starts_with(#[trigger] lines(prompt@)[k], prefix@),
                    decreases ls.len() - i,
                {
                    let hit = starts_with_chars(ls[i].as_slice(), pv.as_slice());
                    proof {
                        assert(lines(prompt@)[i as int] == ls@[i as int]@);
                    }
                    passed = passed || hit;
                    i = i + 1;
                }
                AssertionResult {
                    description: concat3("Has line starting with '", prefix.as_str(), "'"),
                    passed,
                    message: failure_message(
                        passed,
                        "No line in prompt starts with '",
                        prefix.as_str(),
                        "'",
                    ),
                }
            },
            EvalAssertion::LengthRange { min, max } => {
                let len = chars_of(prompt).len();
                let passed = len >= *min && len <= *max;
                AssertionResult {
                    description: range_description("Character length in range [", *min, *max),
                    passed,
                    message: Some(count_message("Actual length: ", len)),
                }
            },
        }
    }

    /// Runs a single eval case against a prompt.
    pub fn evaluate(case: &EvalCase, prompt: &str) -> (r: EvalResult)
        requires
            case.checkable_on(prompt@),
        ensures
            evaluated(r, *case, prompt@),
    {
        let start = instant_now();
        let mut results: Vec<AssertionResult> = Vec::new();
        let mut passed = true;
        let mut i: usize = 0;
        while i < case.assertions.len()
            invariant
                0 <= i <= case.assertions@.len(),
                case.checkable_on(prompt@),
                results@.len() == i,
                forall|k: int|
                    0 <= k < i ==> checked(#[trigger] results@[k], case.assertions@[k], prompt@),
                passed == forall|k: int| 0 <= k < i ==> (#[trigger] case.assertions@[k]).passes(
                    prompt@,
                ),
            decreases case.assertions.len() - i,
        {
            proof {
                assert(case.assertions@[i as int].checkable_on(prompt@));
            }
            let r = Self::check_assertion(&case.assertions[i], prompt);
            passed = passed && r.passed;
            results.push(r);
            i = i + 1;
        }
        EvalResult {
            case_name: case.name.clone(),
            passed,
            assertions: results,
            duration_ms: elapsed_millis(&start),
        }
    }

    /// Evaluates the given cases, in order, into a report.
    fn evaluate_refs(cases: &Vec<&EvalCase>, prompt: &str) -> (r: EvalReport)
        requires
            forall|i: int| 0 <= i < cases@.len() ==> (#[trigger] cases@[i]).checkable_on(prompt@),
        ensures
            reported(r, Seq::new(cases@.len(), |i: int| *cases@[i]), prompt@),
    {
        let ghost all = Seq::new(cases@.len(), |i: int| *cases@[i]);
        let start = instant_now();
        let mut results: Vec<EvalResult> = Vec::new();
        let mut passed: usize = 0;
        let mut i: usize = 0;
        while i < cases.len()
            invariant
                0 <= i <= cases@.len(),
                all == Seq::new(cases@.len(), |i: int| *cases@[i]),
                forall|k: int| 0 <= k < cases@.len() ==> (#[trigger] cases@[k]).checkable_on(prompt@),
                results@.len() == i,
                forall|k: int|
                    0 <= k < i ==> evaluated(#[trigger] results@[k], all[k], prompt@),
                passed == num_passing(all.take(i as int), prompt@),
                passed <= i,
            decreases cases.len() - i,
        {
            let r = Self::evaluate(cases[i], prompt);
            proof {
                assert(all.take(i + 1).drop_last() =~= all.take(i as int));
                assert(all.take(i + 1).last() == all[i as int]);
            }
            if r.passed {
                passed = passed + 1;
            }
            results.push(r);
            i = i + 1;
        }
        proof {
            assert(all.take(cases.len() as int) =~= all);
        }
        let total = results.len();
        EvalReport {
            results,
            total,
            passed,
            failed: total - passed,
            total_duration_ms: elapsed_millis(&start),
        }
    }

    /// Runs every case against the same prompt and aggregates the results.
    pub fn evaluate_all(cases: &[EvalCase], prompt: &str) -> (r: EvalReport)
        requires
            forall|i: int| 0 <= i < cases@.len() ==> (#[trigger] cases@[i]).checkable_on(prompt@),
        ensures
            reported(r, cases@, prompt@),
    {
        let mut refs: Vec<&EvalCase> = Vec::new();
        let mut i: usize = 0;
        while i < cases.len()
            invariant
                0 <= i <= cases@.len(),
                refs@.len() == i,
                forall|k: int| 0 <= k < i ==> *refs@[k] == cases@[k],
            decreases cases.len() - i,
        {
            refs.push(&cases[i]);
            i = i + 1;
        }
        proof {
            assert(Seq::new(refs@.len(), |i: int| *refs@[i]) =~= cases@);
        }
        Self::evaluate_refs(&refs, prompt)
    }

    /// Runs only the cases that carry at least one of `tags`.
    pub fn evaluate_with_tags(cases: &[EvalCase], prompt: &str, tags: &[&str]) -> (r: EvalReport)
        requires
            forall|i: int|
                0 <= i < cases@.len() && (#[trigger] cases@[i]).has_any_tag(tags@) ==> cases@[i].checkable_on(
                    prompt@,
                ),
        ensures
            reported(r, cases@.filter(|c: EvalCase| c.has_any_tag(tags@)), prompt@),
    {
        let ghost pred = |c: EvalCase| c.has_any_tag(tags@);
        let mut refs: Vec<&EvalCase> = Vec::new();
        let mut i: usize = 0;
        while i < cases.len()
            invariant
                0 <= i <= cases@.len(),
                pred == (|c: EvalCase| c.has_any_tag(tags@)),
                Seq::new(refs@.len(), |k: int| *refs@[k]) == cases@.take(i as int).filter(pred),
                forall|k: int|
                    0 <= k < cases@.len() && (#[trigger] cases@[k]).has_any_tag(tags@) ==> cases@[k].checkable_on(
                        prompt@,
                    ),
                forall|k: int| 0 <= k < refs@.len() ==> (#[trigger] refs@[k]).checkable_on(prompt@),
            decreases cases.len() - i,
        {
            let c = &cases[i];
            let tagged = Self::has_any_tag(c, tags);
            let ghost before = Seq::new(refs@.len(), |k: int| *refs@[k]);
            proof {
                reveal_with_fuel(Seq::<_>::filter, 1);
                assert(cases@.take(i + 1).drop_last() =~= cases@.take(i as int));
                assert(cases@.take(i + 1).last() == *c);
            }
            if tagged {
                refs.push(c);
                assert(Seq::new(refs@.len(), |k: int| *refs@[k]) =~= before.push(*c));
            }
            i = i + 1;
        }
        proof {
            assert(cases@.take(cases.len() as int) =~= cases@);
        }
        Self::evaluate_refs(&refs, prompt)
    }

    /// Whether the case carries one of `tags`.
    fn has_any_tag(case: &EvalCase, tags: &[&str]) -> (r: bool)
        ensures
            r == case.has_any_tag(tags@),
    {
        let mut i: usize = 0;
        while i < case.tags.len()
            invariant
                0 <= i <= case.tags@.len(),
                forall|a: int, b: int|
                    0 <= a < i && 0 <= b < tags@.len() ==> (#[trigger] case.tags@[a])@ != (
                    #[trigger] tags@[b])@,
            decreases case.tags.len() - i,
        {
            let mut j: usize = 0;
            while j < tags.len()
                invariant
                    0 <= i < case.tags@.len(),
                    0 <= j <= tags@.len(),
                    forall|a: int, b: int|
                        0 <= a < i && 0 <= b < tags@.len() ==> (#[trigger] case.tags@[a])@ != (
                        #[trigger] tags@[b])@,
                    forall|b: int| 0 <= b < j ==> case.tags@[i as int]@ != (#[trigger] tags@[b])@,
                decreases tags.len() - j,
            {
                if str_eq(case.tags[i].as_str(), tags[j]) {
                    return true;
                }
                j = j + 1;
            }
            i = i + 1;
        }
        false
    }
}

} // verus!
