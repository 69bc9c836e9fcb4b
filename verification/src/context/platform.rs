//! The platform layer of the context hierarchy: language rules, learning-loop
//! steps, prompt injection rules and the loader's configuration file.
use vstd::prelude::*;

use std::path::{Path, PathBuf};

use crate::context::resolver::{ContextLayer as Layer, ContextPriority, ResolvedContext};
use crate::json::{bool_json, json_bool, json_u64, number_json};
use crate::keyed::{has_key, lookup, put};
use crate::sort::{keys_ascending, lemma_sort_ascending, sort_by_key, stable_sort_by_key};
use crate::text::{
    decimal, push_decimal, push_str, str_ends_with, str_eq, to_owned, to_uppercase, trim_end,
    trim_end_string, uppercase,
};

verus! {

/// `std::path::PathBuf`, carried through opaquely.
#[verifier::external_type_specification]
#[verifier::external_body]
pub struct ExPathBuf(std::path::PathBuf);

/// `std::path::Path`, carried through opaquely.
#[verifier::external_type_specification]
#[verifier::external_body]
pub struct ExPath(std::path::Path);

/// `path.as_ref().to_path_buf()`.  Nothing is said of the path: it has no view
/// here.
#[verifier::external_body]
pub(crate) fn owned_path<P: AsRef<Path>>(path: P) -> PathBuf {
    path.as_ref().to_path_buf()
}

/// `PathBuf::as_path`.  Nothing is said of the path: it has no view here.
#[verifier::external_body]
pub(crate) fn borrowed_path(p: &PathBuf) -> &Path {
    p.as_path()
}

/// `Path::exists`.  Nothing is promised of the answer: it depends on the file
/// system.
#[verifier::external_body]
fn path_exists(p: &Path) -> bool {
    p.exists()
}

/// Language configuration for generated content.
#[derive(Debug, Clone)]
pub struct LanguageConfig {
    /// Default language code (e.g., "en").
    pub default: String,
    /// Whether to enforce English for all outputs.
    pub enforce_english: bool,
    /// System prompt rule for language requirements.
    pub system_prompt_rule: String,
}

/// The language used when none is configured.
pub fn default_language() -> (r: String)
    ensures
        r@ == "en"@,
{
    to_owned("en")
}

impl Default for LanguageConfig {
    fn default() -> (r: Self)
        ensures
            r.default@ == "en"@,
            !r.enforce_english,
            r.system_prompt_rule@.len() == 0,
    {
        LanguageConfig {
            default: default_language(),
            enforce_english: false,
            system_prompt_rule: String::new(),
        }
    }
}

/// A single step in the learning loop.
#[derive(Debug, Clone)]
pub struct LearningLoopStep {
    /// Step identifier.
    pub step: String,
    /// Human-readable description of the step.
    pub description: String,
}

/// Issue recording configuration.  The similarity threshold, a fraction in
/// `[0, 1]`, is held as the bit pattern of its `f32`.
#[derive(Debug, Clone)]
pub struct IssueRecordingConfig {
    /// Whether to deduplicate issues before recording.
    pub deduplicate: bool,
    /// Bits of the `f32` similarity threshold above which issues are duplicates.
    pub similarity_threshold_bits: u32,
    /// Output format for recorded issues.
    pub format: String,
    /// Required fields for issue recording.
    pub required_fields: Vec<String>,
    /// Optional fields for issue recording.
    pub optional_fields: Vec<String>,
}

/// Bits of the default similarity threshold, `0.8f32`.
pub const DEFAULT_SIMILARITY_THRESHOLD_BITS: u32 = 0x3F4C_CCCD;

impl Default for IssueRecordingConfig {
    fn default() -> (r: Self)
        ensures
            !r.deduplicate,
            r.similarity_threshold_bits == DEFAULT_SIMILARITY_THRESHOLD_BITS,
            r.format@.len() == 0,
            r.required_fields@.len() == 0,
            r.optional_fields@.len() == 0,
    {
        IssueRecordingConfig {
            deduplicate: false,
            similarity_threshold_bits: DEFAULT_SIMILARITY_THRESHOLD_BITS,
            format: String::new(),
            required_fields: Vec::new(),
            optional_fields: Vec::new(),
        }
    }
}

/// Self-iteration learning protocol configuration.
#[derive(Debug, Clone)]
pub struct IterationConfig {
    /// Whether iteration is enabled.
    pub enabled: bool,
    /// Maximum retry attempts before giving up.
    pub max_retries: u32,
    /// Whether to automatically record issues on failure.
    pub auto_record: bool,
    /// Learning loop steps.
    pub learning_loop: Vec<LearningLoopStep>,
    /// Issue recording configuration.
    pub issue_recording: IssueRecordingConfig,
}

/// Retries allowed when none are configured.
pub fn default_max_retries() -> (r: u32)
    ensures
        r == 3,
{
    3
}

impl Default for IterationConfig {
    fn default() -> (r: Self)
        ensures
            r.enabled,
            r.max_retries == 3,
            r.auto_record,
            r.learning_loop@.len() == 0,
            !r.issue_recording.deduplicate,
            r.issue_recording.similarity_threshold_bits == DEFAULT_SIMILARITY_THRESHOLD_BITS,
            r.issue_recording.format@.len() == 0,
            r.issue_recording.required_fields@.len() == 0,
            r.issue_recording.optional_fields@.len() == 0,
    {
        IterationConfig {
            enabled: true,
            max_retries: default_max_retries(),
            auto_record: true,
            learning_loop: Vec::new(),
            issue_recording: IssueRecordingConfig::default(),
        }
    }
}

/// System prompt injection configuration.
#[derive(Debug, Clone)]
pub struct SystemPromptConfig {
    /// Platform-level rules injected into all agent system prompts.
    pub platform_rules: String,
    /// Skill-related system prompt rules.
    pub skill_rules: String,
}

impl Default for SystemPromptConfig {
    fn default() -> (r: Self)
        ensures
            r.platform_rules@.len() == 0,
            r.skill_rules@.len() == 0,
    {
        SystemPromptConfig { platform_rules: String::new(), skill_rules: String::new() }
    }
}

/// A single layer in the configured context hierarchy.
#[derive(Debug, Clone)]
pub struct ContextLayer {
    /// Layer name (e.g., "platform", "organization", "user").
    pub name: String,
    /// Human-readable description of the layer.
    pub description: String,
    /// Scope identifier.
    pub scope: String,
    /// Priority level (lower = higher priority).
    pub priority: u32,
}

/// Priority of a layer when none is configured.
pub fn default_priority() -> (r: u32)
    ensures
        r == 100,
{
    100
}

/// The positions of the layers keyed by priority, in configured order.
pub open spec fn keyed_layers(layers: Seq<ContextLayer>) -> Seq<(usize, usize)> {
    Seq::new(layers.len(), |i: int| (layers[i].priority as usize, i as usize))
}

/// The layers in ascending priority; layers of equal priority keep their
/// configured order.
pub open spec fn sorted_layer_seq(layers: Seq<ContextLayer>) -> Seq<ContextLayer> {
    sort_by_key(keyed_layers(layers)).map_values(|p: (usize, usize)| layers[p.1 as int])
}

/// Context hierarchy configuration.
#[derive(Debug, Clone)]
pub struct ContextHierarchyConfig {
    /// Ordered list of context layers.
    pub layers: Vec<ContextLayer>,
}

impl Default for ContextHierarchyConfig {
    fn default() -> (r: Self)
        ensures
            r.layers@.len() == 0,
    {
        ContextHierarchyConfig { layers: Vec::new() }
    }
}

/// Every entry of the sorted order is a position of the layers, keyed by that
/// layer's priority.
proof fn lemma_sorted_positions(layers: Seq<ContextLayer>)
    requires
        layers.len() <= usize::MAX,
    ensures
        sort_by_key(keyed_layers(layers)).len() == layers.len(),
        forall|k: int|
            0 <= k < sort_by_key(keyed_layers(layers)).len() ==> {
                let e = #[trigger] sort_by_key(keyed_layers(layers))[k];
                e.1 < layers.len() && e.0 == layers[e.1 as int].priority as usize
            },
{
    broadcast use vstd::seq_lib::group_to_multiset_ensures;

    let ks = keyed_layers(layers);
    let ss = sort_by_key(ks);
    lemma_sort_ascending(ks);
    assert forall|k: int| 0 <= k < ss.len() implies {
        let e = #[trigger] ss[k];
        e.1 < layers.len() && e.0 == layers[e.1 as int].priority as usize
    } by {
        assert(ss.to_multiset().count(ss[k]) > 0);
        assert(ks.to_multiset().count(ss[k]) > 0);
        assert(ks.contains(ss[k]));
        let m = choose|m: int| 0 <= m < ks.len() && ks[m] == ss[k];
        assert(ks[m].1 as int == m);
    }
}

/// The sorted layers are the configured layers in ascending priority: each
/// is one of the configured layers, and no layer comes after one of higher
/// priority number.
pub proof fn lemma_sorted_layers_ascending(layers: Seq<ContextLayer>)
    requires
        layers.len() <= usize::MAX,
    ensures
        sorted_layer_seq(layers).len() == layers.len(),
        forall|i: int|
            0 <= i < layers.len() ==> layers.contains(#[trigger] sorted_layer_seq(layers)[i]),
        forall|i: int, j: int|
            0 <= i <= j < layers.len() ==> (#[trigger] sorted_layer_seq(layers)[i]).priority
                <= (#[trigger] sorted_layer_seq(layers)[j]).priority,
{
    let ks = keyed_layers(layers);
    let ss = sort_by_key(ks);
    lemma_sort_ascending(ks);
    lemma_sorted_positions(layers);
    let out = sorted_layer_seq(layers);
    assert forall|i: int| 0 <= i < layers.len() implies layers.contains(#[trigger] out[i]) by {
        let e = ss[i];
        assert(out[i] == layers[e.1 as int]);
    }
    assert forall|i: int, j: int| 0 <= i <= j < layers.len() implies (#[trigger] out[i]).priority
        <= (#[trigger] out[j]).priority by {
        let a = ss[i];
        let b = ss[j];
        assert(a.0 <= b.0);
        assert(out[i] == layers[a.1 as int]);
        assert(out[j] == layers[b.1 as int]);
    }
}

impl ContextHierarchyConfig {
    /// The layers sorted by priority, ascending; equal priorities keep their
    /// configured order.
    pub fn sorted_layers(&self) -> (r: Vec<&ContextLayer>)
        ensures
            r@.len() == self.layers@.len(),
            forall|i: int| 0 <= i < r@.len() ==> *r@[i] == sorted_layer_seq(self.layers@)[i],
    {
        let mut keyed: Vec<(usize, usize)> = Vec::new();
        let mut i: usize = 0;
        while i < self.layers.len()
            invariant
                0 <= i <= self.layers@.len(),
                keyed@ == keyed_layers(self.layers@).take(i as int),
            decreases self.layers.len() - i,
        {
            keyed.push((self.layers[i].priority as usize, i));
            proof {
                assert(keyed@ =~= keyed_layers(self.layers@).take(i + 1));
            }
            i = i + 1;
        }
        proof {
            assert(keyed@ =~= keyed_layers(self.layers@));
        }
        let sorted = stable_sort_by_key(keyed);
        proof {
            lemma_sort_ascending(keyed_layers(self.layers@));
            lemma_sorted_positions(self.layers@);
        }
        let mut out: Vec<&ContextLayer> = Vec::new();
        let mut j: usize = 0;
        while j < sorted.len()
            invariant
                0 <= j <= sorted@.len(),
                sorted@ == sort_by_key(keyed_layers(self.layers@)),
                sorted@.len() == self.layers@.len(),
                forall|k: int| 0 <= k < sorted@.len() ==> (#[trigger] sorted@[k]).1 < self.layers@.len(),
                out@.len() == j,
                forall|k: int| 0 <= k < j ==> *(#[trigger] out@[k]) == sorted_layer_seq(self.layers@)[k],
            decreases sorted.len() - j,
        {
            out.push(&self.layers[sorted[j].1]);
            j = j + 1;
        }
        out
    }

    /// The first layer with the given name.
    pub fn get_layer(&self, name: &str) -> (r: Option<&ContextLayer>)
        ensures
            match r {
                Some(l) => exists|i: int|
                    0 <= i < self.layers@.len() && self.layers@[i] == *l && l.name@ == name@
                        && forall|j: int| 0 <= j < i ==> (#[trigger] self.layers@[j]).name@ != name@,
                None => forall|j: int|
                    0 <= j < self.layers@.len() ==> (#[trigger] self.layers@[j]).name@ != name@,
            },
    {
        let mut i: usize = 0;
        while i < self.layers.len()
            invariant
                0 <= i <= self.layers@.len(),
                forall|j: int| 0 <= j < i ==> (#[trigger] self.layers@[j]).name@ != name@,
            decreases self.layers.len() - i,
        {
            if str_eq(self.layers[i].name.as_str(), name) {
                return Some(&self.layers[i]);
            }
            i = i + 1;
        }
        None
    }
}

/// Skill loading configuration.  The keyword threshold, a fraction in
/// `[0, 1]`, is held as the bit pattern of its `f32`.
#[derive(Debug, Clone)]
pub struct SkillLoadingConfig {
    /// Whether descriptions are always visible and full content is loaded on demand.
    pub two_layer: bool,
    /// Maximum description size in characters for the system prompt.
    pub max_description_chars: usize,
    /// Directory containing skill files.
    pub skill_dir: String,
    /// Whether to automatically match skills to user intent.
    pub auto_match: bool,
    /// Bits of the `f32` keyword matching threshold.
    pub keyword_threshold_bits: u32,
}

/// Bits of the default keyword threshold, `0.6f32`.
pub const DEFAULT_KEYWORD_THRESHOLD_BITS: u32 = 0x3F19_999A;

/// Description budget when none is configured.
pub fn default_max_description_chars() -> (r: usize)
    ensures
        r == 15000,
{
    15000
}

/// Skill directory when none is configured.
pub fn default_skill_dir() -> (r: String)
    ensures
        r@ == ".agent/skills"@,
{
    to_owned(".agent/skills")
}

impl Default for SkillLoadingConfig {
    fn default() -> (r: Self)
        ensures
            r.two_layer,
            r.max_description_chars == 15000,
            r.skill_dir@ == ".agent/skills"@,
            r.auto_match,
            r.keyword_threshold_bits == DEFAULT_KEYWORD_THRESHOLD_BITS,
    {
        SkillLoadingConfig {
            two_layer: true,
            max_description_chars: default_max_description_chars(),
            skill_dir: default_skill_dir(),
            auto_match: true,
            keyword_threshold_bits: DEFAULT_KEYWORD_THRESHOLD_BITS,
        }
    }
}

/// The complete platform configuration.
#[derive(Debug, Clone)]
pub struct PlatformContext {
    /// Language configuration.
    pub language: LanguageConfig,
    /// Iteration/learning protocol configuration.
    pub iteration: IterationConfig,
    /// System prompt injection configuration.
    pub system_prompt: SystemPromptConfig,
    /// Context hierarchy configuration.
    pub context_hierarchy: ContextHierarchyConfig,
    /// Skill loading configuration.
    pub skill_loading: SkillLoadingConfig,
}

impl Default for PlatformContext {
    fn default() -> (r: Self)
        ensures
            r.language.default@ == "en"@,
            !r.language.enforce_english,
            r.language.system_prompt_rule@.len() == 0,
            r.iteration.enabled,
            r.iteration.max_retries == 3,
            r.iteration.auto_record,
            r.iteration.learning_loop@.len() == 0,
            !r.iteration.issue_recording.deduplicate,
            r.iteration.issue_recording.similarity_threshold_bits
                == DEFAULT_SIMILARITY_THRESHOLD_BITS,
            r.iteration.issue_recording.format@.len() == 0,
            r.iteration.issue_recording.required_fields@.len() == 0,
            r.iteration.issue_recording.optional_fields@.len() == 0,
            r.system_prompt.platform_rules@.len() == 0,
            r.system_prompt.skill_rules@.len() == 0,
            r.context_hierarchy.layers@.len() == 0,
            r.skill_loading.two_layer,
            r.skill_loading.max_description_chars == 15000,
            r.skill_loading.skill_dir@ == ".agent/skills"@,
            r.skill_loading.auto_match,
            r.skill_loading.keyword_threshold_bits == DEFAULT_KEYWORD_THRESHOLD_BITS,
    {
        PlatformContext {
            language: LanguageConfig::default(),
            iteration: IterationConfig::default(),
            system_prompt: SystemPromptConfig::default(),
            context_hierarchy: ContextHierarchyConfig::default(),
            skill_loading: SkillLoadingConfig::default(),
        }
    }
}

/// The platform and skill rules, a blank line between them when both are set.
pub open spec fn platform_rules_text(p: SystemPromptConfig) -> Seq<char> {
    if p.skill_rules@.len() == 0 {
        p.platform_rules@
    } else if p.platform_rules@.len() == 0 {
        p.skill_rules@
    } else {
        p.platform_rules@ + "\n\n"@ + p.skill_rules@
    }
}

/// The line of learning-loop step number `n`, with its description when set.
pub open spec fn step_line(step: LearningLoopStep, n: nat) -> Seq<char> {
    decimal(n) + ". "@ + uppercase(step.step@) + "\n"@ + if step.description@.len() > 0 {
        "   "@ + step.description@ + "\n"@
    } else {
        seq![]
    }
}

/// The numbered lines of the learning loop.
pub open spec fn step_lines(steps: Seq<LearningLoopStep>) -> Seq<char>
    decreases steps.len(),
{
    if steps.len() == 0 {
        seq![]
    } else {
        step_lines(steps.drop_last()) + step_line(steps.last(), steps.len())
    }
}

/// The learning protocol rules; nothing when iteration is disabled.
pub open spec fn iteration_rules_text(it: IterationConfig) -> Seq<char> {
    if !it.enabled {
        seq![]
    } else {
        "## Self-Iteration Learning Protocol\n\n"@ + "When a task fails, follow this loop:\n"@
            + step_lines(it.learning_loop@) + "\nMax retries: "@ + decimal(it.max_retries as nat)
            + "\n"@ + if it.auto_record {
            "Auto-record new issues: enabled\n"@
        } else {
            seq![]
        }
    }
}

/// The line describing one layer of the hierarchy.
pub open spec fn layer_line(l: ContextLayer) -> Seq<char> {
    decimal(l.priority as nat) + ". **"@ + l.name@ + "** ("@ + l.scope@ + "): "@ + l.description@
        + "\n"@
}

/// The lines of a sequence of layers.
pub open spec fn layer_lines(layers: Seq<ContextLayer>) -> Seq<char>
    decreases layers.len(),
{
    if layers.len() == 0 {
        seq![]
    } else {
        layer_lines(layers.drop_last()) + layer_line(layers.last())
    }
}

/// The context priority rules: the layers in ascending priority.
pub open spec fn context_rules_text(h: ContextHierarchyConfig) -> Seq<char> {
    "## Context Priority\n\n"@
        + "Rules are applied in priority order. Higher priority cannot be overridden:\n\n"@
        + layer_lines(sorted_layer_seq(h.layers@))
}

/// The platform section of a system prompt.
pub open spec fn platform_section_text(p: PlatformContext) -> Seq<char> {
    "# Platform Rules\n\n"@ + p.language.system_prompt_rule@ + "\n\n"@
        + p.system_prompt.platform_rules@ + "\n\n"@ + iteration_rules_text(p.iteration) + "\n"@
}

impl PlatformContext {
    /// Whether English is enforced for all outputs.
    pub fn is_english_enforced(&self) -> (r: bool)
        ensures
            r == self.language.enforce_english,
    {
        self.language.enforce_english
    }

    /// Whether iteration learning is enabled.
    pub fn is_iteration_enabled(&self) -> (r: bool)
        ensures
            r == self.iteration.enabled,
    {
        self.iteration.enabled
    }

    /// The platform rules followed by the skill rules.
    pub fn get_platform_rules(&self) -> (r: String)
        ensures
            r@ == platform_rules_text(self.system_prompt),
    {
        let mut rules = String::new();
        if !self.system_prompt.platform_rules.as_str().is_empty() {
            push_str(&mut rules, self.system_prompt.platform_rules.as_str());
        }
        if !self.system_prompt.skill_rules.as_str().is_empty() {
            if !rules.as_str().is_empty() {
                push_str(&mut rules, "\n\n");
            }
            push_str(&mut rules, self.system_prompt.skill_rules.as_str());
        }
        rules
    }

    /// The learning protocol rules; empty when iteration is disabled.
    pub fn get_iteration_rules(&self) -> (r: String)
        ensures
            r@ == iteration_rules_text(self.iteration),
    {
        if !self.iteration.enabled {
            return String::new();
        }
        let mut rules = to_owned("## Self-Iteration Learning Protocol\n\n");
        push_str(&mut rules, "When a task fails, follow this loop:\n");
        let ghost head = rules@;
        let steps = &self.iteration.learning_loop;
        let mut i: usize = 0;
        proof {
            assert(steps@.take(0) =~= Seq::<LearningLoopStep>::empty());
        }
        while i < steps.len()
            invariant
                0 <= i <= steps@.len(),
                rules@ == head + step_lines(steps@.take(i as int)),
            decreases steps.len() - i,
        {
            let step = &steps[i];
            push_decimal(&mut rules, (i as u64) + 1);
            push_str(&mut rules, ". ");
            let upper = to_uppercase(step.step.as_str());
            push_str(&mut rules, upper.as_str());
            push_str(&mut rules, "\n");
            if !step.description.as_str().is_empty() {
                push_str(&mut rules, "   ");
                push_str(&mut rules, step.description.as_str());
                push_str(&mut rules, "\n");
            }
            proof {
                let t = steps@.take(i + 1);
                assert(t.drop_last() =~= steps@.take(i as int));
                assert(t.last() == steps@[i as int]);
                assert(rules@ =~= head + step_lines(steps@.take(i as int)) + step_line(
                    steps@[i as int],
                    (i + 1) as nat,
                ));
            }
            i = i + 1;
        }
        proof {
            assert(steps@.take(steps@.len() as int) =~= steps@);
        }
        push_str(&mut rules, "\nMax retries: ");
        push_decimal(&mut rules, self.iteration.max_retries as u64);
        push_str(&mut rules, "\n");
        if self.iteration.auto_record {
            push_str(&mut rules, "Auto-record new issues: enabled\n");
        }
        rules
    }

    /// The context priority rules, one line per layer in ascending priority.
    pub fn get_context_rules(&self) -> (r: String)
        ensures
            r@ == context_rules_text(self.context_hierarchy),
    {
        let mut rules = to_owned("## Context Priority\n\n");
        push_str(
            &mut rules,
            "Rules are applied in priority order. Higher priority cannot be overridden:\n\n",
        );
        let ghost head = rules@;
        let ghost all = sorted_layer_seq(self.context_hierarchy.layers@);
        let sorted = self.context_hierarchy.sorted_layers();
        let mut i: usize = 0;
        proof {
            lemma_sort_ascending(keyed_layers(self.context_hierarchy.layers@));
            assert(all.take(0) =~= Seq::<ContextLayer>::empty());
        }
        while i < sorted.len()
            invariant
                0 <= i <= sorted@.len(),
                sorted@.len() == all.len(),
                forall|k: int| 0 <= k < sorted@.len() ==> *sorted@[k] == all[k],
                rules@ == head + layer_lines(all.take(i as int)),
            decreases sorted.len() - i,
        {
            let layer = sorted[i];
            push_decimal(&mut rules, layer.priority as u64);
            push_str(&mut rules, ". **");
            push_str(&mut rules, layer.name.as_str());
            push_str(&mut rules, "** (");
            push_str(&mut rules, layer.scope.as_str());
            push_str(&mut rules, "): ");
            push_str(&mut rules, layer.description.as_str());
            push_str(&mut rules, "\n");
            proof {
                let t = all.take(i + 1);
                assert(t.drop_last() =~= all.take(i as int));
                assert(t.last() == all[i as int]);
                assert(rules@ =~= head + layer_lines(all.take(i as int)) + layer_line(all[i as int]));
            }
            i = i + 1;
        }
        proof {
            assert(all.take(all.len() as int) =~= all);
        }
        rules
    }

    /// The platform section of a system prompt: language rule, platform rules
    /// and learning protocol.
    pub fn generate_platform_section(&self) -> (r: String)
        ensures
            r@ == platform_section_text(*self),
    {
        let mut section = to_owned("# Platform Rules\n\n");
        push_str(&mut section, self.language.system_prompt_rule.as_str());
        push_str(&mut section, "\n\n");
        push_str(&mut section, self.system_prompt.platform_rules.as_str());
        push_str(&mut section, "\n\n");
        let it = self.get_iteration_rules();
        push_str(&mut section, it.as_str());
        push_str(&mut section, "\n");
        proof {
            assert(section@ =~= platform_section_text(*self));
        }
        section
    }

    /// The skill loading configuration.
    pub fn skill_loading_config(&self) -> (r: &SkillLoadingConfig)
        ensures
            *r == self.skill_loading,
    {
        &self.skill_loading
    }

    /// Whether two-layer skill loading is enabled.
    pub fn is_two_layer_loading_enabled(&self) -> (r: bool)
        ensures
            r == self.skill_loading.two_layer,
    {
        self.skill_loading.two_layer
    }

    /// The description budget for skills, in characters.
    pub fn max_skill_description_chars(&self) -> (r: usize)
        ensures
            r == self.skill_loading.max_description_chars,
    {
        self.skill_loading.max_description_chars
    }
}

/// The configuration keys the platform layer sets.
pub open spec fn platform_config_key(k: Seq<char>) -> bool {
    ||| k == "max_skill_description_chars"@
    ||| k == "two_layer_loading"@
    ||| k == "iteration_enabled"@
    ||| k == "max_retries"@
}

impl Layer for PlatformContext {
    open spec fn name_spec(&self) -> Seq<char> {
        "platform"@
    }

    open spec fn priority_spec(&self) -> ContextPriority {
        ContextPriority::Platform
    }

    open spec fn applies(&self, before: ResolvedContext, after: ResolvedContext) -> bool {
        &&& after.platform_rules@ == platform_section_text(*self)
        &&& after.enforce_english == self.language.enforce_english
        &&& lookup(after.config_values@, "max_skill_description_chars"@) == Some(
            number_json(self.skill_loading.max_description_chars as u64),
        )
        &&& lookup(after.config_values@, "two_layer_loading"@) == Some(
            bool_json(self.skill_loading.two_layer),
        )
        &&& lookup(after.config_values@, "iteration_enabled"@) == Some(
            bool_json(self.iteration.enabled),
        )
        &&& lookup(after.config_values@, "max_retries"@) == Some(
            number_json(self.iteration.max_retries as u64),
        )
        &&& forall|k: Seq<char>|
            !platform_config_key(k) ==> lookup(after.config_values@, k) == lookup(
                before.config_values@,
                k,
            )
        &&& forall|k: Seq<char>|
            has_key(after.config_values@, k) <==> (has_key(
                before.config_values@,
                k,
            ) || platform_config_key(k))
        &&& after == (ResolvedContext {
            platform_rules: after.platform_rules,
            enforce_english: after.enforce_english,
            config_values: after.config_values,
            ..before
        })
    }

    fn layer_name(&self) -> (r: &str)
        ensures
            r@ == "platform"@,
    {
        "platform"
    }

    fn priority(&self) -> (r: ContextPriority)
        ensures
            r == ContextPriority::Platform,
    {
        assert(self.priority_spec() == ContextPriority::Platform);
        ContextPriority::Platform
    }

    /// Sets the platform rules and English enforcement, and records the skill
    /// budget, two-layer loading, iteration and retry settings as
    /// configuration values.
    fn apply_to(&self, resolved: &mut ResolvedContext)
    {
        resolved.platform_rules = self.generate_platform_section();
        resolved.enforce_english = self.language.enforce_english;
        let ghost k1 = "max_skill_description_chars"@;
        let ghost k2 = "two_layer_loading"@;
        let ghost k3 = "iteration_enabled"@;
        let ghost k4 = "max_retries"@;
        proof {
            reveal_strlit("max_skill_description_chars");
            reveal_strlit("two_layer_loading");
            reveal_strlit("iteration_enabled");
            reveal_strlit("max_retries");
            assert(k1.len() != k2.len() && k1.len() != k3.len() && k1.len() != k4.len());
            assert(k2[0] != k3[0] && k2[0] != k4[0] && k3[0] != k4[0]);
        }
        let v1 = json_u64(self.skill_loading.max_description_chars as u64);
        put(&mut resolved.config_values, "max_skill_description_chars", v1);
        let v2 = json_bool(self.skill_loading.two_layer);
        put(&mut resolved.config_values, "two_layer_loading", v2);
        assert(lookup(resolved.config_values@, k1) == Some(v1));
        let v3 = json_bool(self.iteration.enabled);
        put(&mut resolved.config_values, "iteration_enabled", v3);
        assert(lookup(resolved.config_values@, k1) == Some(v1));
        assert(lookup(resolved.config_values@, k2) == Some(v2));
        let v4 = json_u64(self.iteration.max_retries as u64);
        put(&mut resolved.config_values, "max_retries", v4);
        assert(lookup(resolved.config_values@, k1) == Some(v1));
        assert(lookup(resolved.config_values@, k2) == Some(v2));
        assert(lookup(resolved.config_values@, k3) == Some(v3));
    }
}

/// The injected platform rules: a header, the language rule when English is
/// enforced and the rule is set, then the platform rules.
pub open spec fn prompt_injection_text(ctx: PlatformContext) -> Seq<char> {
    "## Platform Rules\n\n"@ + (if ctx.language.enforce_english
        && ctx.language.system_prompt_rule@.len() > 0 {
        ctx.language.system_prompt_rule@ + "\n"@
    } else {
        seq![]
    }) + ctx.system_prompt.platform_rules@
}

/// The full platform prompt before its trailing whitespace is removed.
pub open spec fn full_prompt_text(ctx: PlatformContext) -> Seq<char> {
    (if ctx.language.enforce_english && ctx.language.system_prompt_rule@.len() > 0 {
        "## Language Requirements\n\n"@ + ctx.language.system_prompt_rule@ + "\n\n"@
    } else {
        seq![]
    }) + (if ctx.system_prompt.platform_rules@.len() > 0 {
        ctx.system_prompt.platform_rules@ + "\n\n"@
    } else {
        seq![]
    }) + ctx.system_prompt.skill_rules@
}

/// Loads the platform context from its configuration file.
#[derive(Debug)]
pub struct PlatformContextLoader {
    config_path: PathBuf,
}

impl PlatformContextLoader {
    /// A loader for the configuration file at `path`.
    pub fn new<P: AsRef<Path>>(path: P) -> (r: Self) {
        PlatformContextLoader { config_path: owned_path(path) }
    }

    /// The configuration file's path.
    pub fn config_path(&self) -> &Path {
        borrowed_path(&self.config_path)
    }

    /// Whether the configuration file exists.
    pub fn config_exists(&self) -> bool {
        path_exists(borrowed_path(&self.config_path))
    }

    /// The platform rules section to inject into an agent's prompt: the
    /// language rule when English is enforced, then the platform rules.
    pub fn get_system_prompt_injection(&self, ctx: &PlatformContext) -> (r: String)
        ensures
            r@ == prompt_injection_text(*ctx),
    {
        let mut prompt = to_owned("## Platform Rules\n\n");
        proof {
            reveal_strlit("## Platform Rules\n\n");
            reveal_strlit("\n");
        }
        if ctx.language.enforce_english && !ctx.language.system_prompt_rule.as_str().is_empty() {
            push_str(&mut prompt, ctx.language.system_prompt_rule.as_str());
            push_str(&mut prompt, "\n");
        }
        let ghost head = prompt@;
        assert(head.last() == '\n');
        if !ctx.system_prompt.platform_rules.as_str().is_empty() {
            assert(prompt@.subrange(prompt@.len() - 1, prompt@.len() as int) =~= "\n"@);
            if !str_ends_with(prompt.as_str(), "\n") {
                push_str(&mut prompt, "\n");
            }
            push_str(&mut prompt, ctx.system_prompt.platform_rules.as_str());
        }
        proof {
            assert(prompt@ =~= prompt_injection_text(*ctx));
        }
        prompt
    }

    /// The language requirements, platform rules and skill rules, without
    /// trailing whitespace.
    pub fn get_full_system_prompt(&self, ctx: &PlatformContext) -> (r: String)
        ensures
            r@ == trim_end(full_prompt_text(*ctx)),
    {
        let mut prompt = String::new();
        if ctx.language.enforce_english && !ctx.language.system_prompt_rule.as_str().is_empty() {
            push_str(&mut prompt, "## Language Requirements\n\n");
            push_str(&mut prompt, ctx.language.system_prompt_rule.as_str());
            push_str(&mut prompt, "\n\n");
        }
        if !ctx.system_prompt.platform_rules.as_str().is_empty() {
            push_str(&mut prompt, ctx.system_prompt.platform_rules.as_str());
            push_str(&mut prompt, "\n\n");
        }
        if !ctx.system_prompt.skill_rules.as_str().is_empty() {
            push_str(&mut prompt, ctx.system_prompt.skill_rules.as_str());
        }
        proof {
            assert(prompt@ =~= full_prompt_text(*ctx));
        }
        trim_end_string(prompt.as_str())
    }

    /// The platform section followed, under two-layer loading, by the skill
    /// descriptions when there are any.
    pub fn generate_full_system_prompt(
        &self,
        platform: &PlatformContext,
        skill_descriptions: &str,
    ) -> (r: String)
        ensures
            r@ == platform_section_text(*platform) + if platform.skill_loading.two_layer
                && skill_descriptions@.len() > 0 {
                "\n"@ + skill_descriptions@ + "\n"@
            } else {
                seq![]
            },
    {
        let mut prompt = platform.generate_platform_section();
        if platform.is_two_layer_loading_enabled() && !skill_descriptions.is_empty() {
            push_str(&mut prompt, "\n");
            push_str(&mut prompt, skill_descriptions);
            push_str(&mut prompt, "\n");
        }
        prompt
    }
}

} // verus!
