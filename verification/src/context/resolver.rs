//! Six-layer context hierarchy: priorities, the resolved context, and the
//! resolver that merges layers.
//!
//! Platform (L1) rules cannot be overridden by any layer; each lower layer can
//! override only the layers below it.
use vstd::prelude::*;

use crate::keyed::{get_ref, has_key, lookup, put};
use crate::text::{push_str, to_owned, trim_end, trim_end_string, views_of};

verus! {

/// Priority levels for context layers (Platform is highest, SubAgent lowest).
#[derive(Debug, Clone, Copy, PartialEq, Eq, PartialOrd, Ord, Hash, Structural)]
pub enum ContextPriority {
    Platform,
    Organization,
    User,
    Session,
    Task,
    SubAgent,
}

impl ContextPriority {
    /// Numeric level: 1 for Platform through 6 for SubAgent.
    pub open spec fn level(self) -> nat {
        match self {
            ContextPriority::Platform => 1,
            ContextPriority::Organization => 2,
            ContextPriority::User => 3,
            ContextPriority::Session => 4,
            ContextPriority::Task => 5,
            ContextPriority::SubAgent => 6,
        }
    }

    /// The layer name of this priority.
    pub open spec fn name_spec(self) -> Seq<char> {
        match self {
            ContextPriority::Platform => "platform"@,
            ContextPriority::Organization => "organization"@,
            ContextPriority::User => "user"@,
            ContextPriority::Session => "session"@,
            ContextPriority::Task => "task"@,
            ContextPriority::SubAgent => "subagent"@,
        }
    }

    /// Numeric level of this priority.
    pub fn level_exec(&self) -> (r: u8)
        ensures
            r == self.level(),
    {
        match self {
            ContextPriority::Platform => 1,
            ContextPriority::Organization => 2,
            ContextPriority::User => 3,
            ContextPriority::Session => 4,
            ContextPriority::Task => 5,
            ContextPriority::SubAgent => 6,
        }
    }

    /// Get the layer name for this priority.
    pub fn layer_name(&self) -> (r: &'static str)
        ensures
            r@ == self.name_spec(),
    {
        match self {
            ContextPriority::Platform => "platform",
            ContextPriority::Organization => "organization",
            ContextPriority::User => "user",
            ContextPriority::Session => "session",
            ContextPriority::Task => "task",
            ContextPriority::SubAgent => "subagent",
        }
    }

    /// Whether this priority can override `other` (see `overrides`): the
    /// layer rules of the hierarchy.  Config values set through `set_config`
    /// follow the strict priority order instead.
    pub fn can_override(&self, other: Self) -> (r: bool)
        ensures
            r == overrides(*self, other),
    {
        let (a, b) = (self.level_exec(), other.level_exec());
        a < b || (a == b + 1 && b != 1 && a != 6)
    }
}

/// Whether layer `a` can override layer `b`: a higher layer overrides every
/// lower one, and the User, Session and Task layers each override the layer
/// just above them (User over Organization, Session over User, Task over
/// Session).  Nothing overrides Platform, Organization only extends it, and
/// SubAgent overrides nothing above it.
pub open spec fn overrides(a: ContextPriority, b: ContextPriority) -> bool {
    a.level() < b.level() || (a.level() == b.level() + 1 && b != ContextPriority::Platform && a
        != ContextPriority::SubAgent)
}

/// The priority levels form a strict order: never reflexive, never both ways,
/// and transitive; equal levels are the same layer.
pub proof fn lemma_override_strict_order(a: ContextPriority, b: ContextPriority, c: ContextPriority)
    ensures
        !(a.level() < a.level()),
        a.level() < b.level() ==> !(b.level() < a.level()),
        a.level() < b.level() && b.level() < c.level() ==> a.level() < c.level(),
        a.level() == b.level() ==> a == b,
{
}

/// Platform rules cannot be overridden by any layer, and SubAgent can
/// override no layer above it.
pub proof fn lemma_platform_never_overridden(p: ContextPriority)
    ensures
        !overrides(p, ContextPriority::Platform),
        p != ContextPriority::SubAgent ==> !overrides(ContextPriority::SubAgent, p),
        overrides(p, ContextPriority::SubAgent) <==> p != ContextPriority::SubAgent,
{
}

/// Permission mode for tool execution.
#[derive(Debug, Clone, Copy, PartialEq, Eq, Structural)]
pub enum PermissionMode {
    Normal,
    Elevated,
    Restricted,
}

impl Default for PermissionMode {
    fn default() -> (r: Self)
        ensures
            r == PermissionMode::Normal,
    {
        PermissionMode::Normal
    }
}

/// A loaded skill with full content.
#[derive(Debug, Clone)]
pub struct LoadedSkill {
    pub name: String,
    pub content: String,
    pub requires_browser: bool,
    pub automation_tab: bool,
}

/// The resolved context after merging all layers.
#[derive(Debug, Clone)]
pub struct ResolvedContext {
    /// Platform-level rules (immutable, highest priority).
    pub platform_rules: String,
    /// Organization conventions (if applicable).
    pub org_conventions: Option<String>,
    /// User preferences.
    pub user_preferences: Option<String>,
    /// Memory context: custom instructions, patterns, semantic recall.
    pub memory_context: Option<String>,
    /// Session context summary.
    pub session_context: Option<String>,
    /// Skill descriptions for the system prompt.
    pub skill_descriptions: String,
    /// Full content of loaded skills.
    pub loaded_skills: Vec<LoadedSkill>,
    /// Task-specific instructions.
    pub task_instructions: Option<String>,
    /// SubAgent context (if applicable).
    pub subagent_context: Option<String>,
    /// Allowed tool names.
    pub allowed_tools: Vec<String>,
    /// Blocked tool names.
    pub blocked_tools: Vec<String>,
    /// Current permission mode.
    pub permission_mode: PermissionMode,
    /// Merged configuration values, first entry per key.
    pub config_values: Vec<(String, serde_json::Value)>,
    /// Whether English is enforced.
    pub enforce_english: bool,
    /// Maximum token limit.
    pub max_token_limit: usize,
    /// Active layers that were applied.
    pub active_layers: Vec<String>,
}

/// `o` followed by a blank line, or nothing.
pub open spec fn opt_block(o: Option<String>) -> Seq<char> {
    match o {
        Some(s) => s@ + "\n\n"@,
        None => seq![],
    }
}

/// The text of an optional string, or nothing.
pub open spec fn opt_text(o: Option<String>) -> Seq<char> {
    match o {
        Some(s) => s@,
        None => seq![],
    }
}

/// The loaded-skill blocks of the plain system prompt.
pub open spec fn skill_blocks(skills: Seq<LoadedSkill>) -> Seq<char>
    decreases skills.len(),
{
    if skills.len() == 0 {
        seq![]
    } else {
        skill_blocks(skills.drop_last()) + "## ["@ + skills.last().name@ + "] Skill Loaded\n\n"@
            + skills.last().content@ + "\n\n"@
    }
}

/// Some string of `v` equals `s`.
pub open spec fn names_contain(v: Seq<String>, s: Seq<char>) -> bool {
    exists|i: int| 0 <= i < v.len() && (#[trigger] v[i])@ == s
}

impl ResolvedContext {
    /// The context with every layer empty.
    pub open spec fn is_blank(self) -> bool {
        &&& self.platform_rules@ == Seq::<char>::empty()
        &&& self.org_conventions is None
        &&& self.user_preferences is None
        &&& self.memory_context is None
        &&& self.session_context is None
        &&& self.skill_descriptions@ == Seq::<char>::empty()
        &&& self.loaded_skills@.len() == 0
        &&& self.task_instructions is None
        &&& self.subagent_context is None
        &&& self.allowed_tools@.len() == 0
        &&& self.blocked_tools@.len() == 0
        &&& self.permission_mode == PermissionMode::Normal
        &&& self.config_values@.len() == 0
        &&& !self.enforce_english
        &&& self.max_token_limit == 0
        &&& self.active_layers@.len() == 0
    }

    /// Whether a tool may run: never when blocked; otherwise when there is no
    /// allow list or the allow list names it.
    pub open spec fn tool_allowed(self, tool: Seq<char>) -> bool {
        !names_contain(self.blocked_tools@, tool) && (self.allowed_tools@.len() == 0
            || names_contain(self.allowed_tools@, tool))
    }

    /// The plain system prompt: layers in fixed order, each followed by a blank
    /// line, with trailing whitespace removed.
    pub open spec fn system_prompt_spec(self) -> Seq<char> {
        trim_end(
            (if self.platform_rules@.len() > 0 {
                self.platform_rules@ + "\n\n"@
            } else {
                seq![]
            }) + opt_block(self.org_conventions) + opt_block(self.user_preferences) + (
            if self.skill_descriptions@.len() > 0 {
                self.skill_descriptions@ + "\n\n"@
            } else {
                seq![]
            }) + skill_blocks(self.loaded_skills@) + opt_block(self.task_instructions) + opt_text(self.subagent_context),
        )
    }

    /// Check if a tool is allowed.
    pub fn is_tool_allowed(&self, tool: &str) -> (r: bool)
        ensures
            r == self.tool_allowed(tool@),
    {
        if crate::keyed::contains_string(&self.blocked_tools, tool) {
            return false;
        }
        if self.allowed_tools.len() == 0 {
            return true;
        }
        crate::keyed::contains_string(&self.allowed_tools, tool)
    }

    /// Get a config value.
    pub fn get_config(&self, key: &str) -> (r: Option<&serde_json::Value>)
        ensures
            r matches Some(v) ==> lookup(self.config_values@, key@) == Some(*v),
            r is None ==> lookup(self.config_values@, key@) is None,
    {
        get_ref(&self.config_values, key)
    }

    /// Get a config value, or `default` when the key is absent.
    pub fn get_config_or<'a>(&'a self, key: &str, default: &'a serde_json::Value) -> (r:
        &'a serde_json::Value)
        ensures
            *r == match lookup(self.config_values@, key@) {
                Some(v) => v,
                None => *default,
            },
    {
        match get_ref(&self.config_values, key) {
            Some(v) => v,
            None => default,
        }
    }

    /// Check if a layer was applied.
    pub fn has_layer(&self, layer_name: &str) -> (r: bool)
        ensures
            r == names_contain(self.active_layers@, layer_name@),
    {
        crate::keyed::contains_string(&self.active_layers, layer_name)
    }

    /// Get the first loaded skill with the given name.
    pub fn get_skill(&self, name: &str) -> (r: Option<&LoadedSkill>)
        ensures
            r matches Some(s) ==> exists|i: int|
                0 <= i < self.loaded_skills@.len() && self.loaded_skills@[i] == *s && s.name@
                    == name@ && forall|j: int|
                    0 <= j < i ==> (#[trigger] self.loaded_skills@[j]).name@ != name@,
            r is None ==> forall|i: int|
                0 <= i < self.loaded_skills@.len() ==> (#[trigger] self.loaded_skills@[i]).name@
                    != name@,
    {
        let mut i: usize = 0;
        while i < self.loaded_skills.len()
            invariant
                0 <= i <= self.loaded_skills@.len(),
                forall|j: int|
                    0 <= j < i ==> (#[trigger] self.loaded_skills@[j]).name@ != name@,
            decreases self.loaded_skills.len() - i,
        {
            if crate::text::str_eq(self.loaded_skills[i].name.as_str(), name) {
                return Some(&self.loaded_skills[i]);
            }
            i = i + 1;
        }
        None
    }

    /// Check if a skill is loaded.
    pub fn has_skill(&self, name: &str) -> (r: bool)
        ensures
            r == exists|i: int|
                0 <= i < self.loaded_skills@.len() && (#[trigger] self.loaded_skills@[i]).name@
                    == name@,
    {
        self.get_skill(name).is_some()
    }

    /// Generate the plain system prompt from the resolved layers.
    #[verifier::spinoff_prover]
    #[verifier::rlimit(50)]
    pub fn generate_system_prompt(&self) -> (r: String)
        ensures
            r@ == self.system_prompt_spec(),
    {
        let mut prompt = String::new();
        if !self.platform_rules.as_str().is_empty() {
            push_str(&mut prompt, self.platform_rules.as_str());
            push_str(&mut prompt, "\n\n");
        }
        let ghost p1 = prompt@;
        if let Some(org) = &self.org_conventions {
            push_str(&mut prompt, org.as_str());
            push_str(&mut prompt, "\n\n");
        }
        assert(prompt@ =~= p1 + opt_block(self.org_conventions));
        let ghost p2 = prompt@;
        if let Some(user) = &self.user_preferences {
            push_str(&mut prompt, user.as_str());
            push_str(&mut prompt, "\n\n");
        }
        assert(prompt@ =~= p2 + opt_block(self.user_preferences));
        if !self.skill_descriptions.as_str().is_empty() {
            push_str(&mut prompt, self.skill_descriptions.as_str());
            push_str(&mut prompt, "\n\n");
        }
        let ghost p3 = prompt@;
        let mut i: usize = 0;
        while i < self.loaded_skills.len()
            invariant
                0 <= i <= self.loaded_skills@.len(),
                prompt@ == p3 + skill_blocks(self.loaded_skills@.take(i as int)),
            decreases self.loaded_skills.len() - i,
        {
            let skill = &self.loaded_skills[i];
            push_str(&mut prompt, "## [");
            push_str(&mut prompt, skill.name.as_str());
            push_str(&mut prompt, "] Skill Loaded\n\n");
            push_str(&mut prompt, skill.content.as_str());
            push_str(&mut prompt, "\n\n");
            proof {
                assert(self.loaded_skills@.take(i + 1).drop_last() =~= self.loaded_skills@.take(
                    i as int,
                ));
            }
            i = i + 1;
            assert(prompt@ =~= p3 + skill_blocks(self.loaded_skills@.take(i as int)));
        }
        assert(self.loaded_skills@.take(self.loaded_skills@.len() as int) =~= self.loaded_skills@);
        let ghost p4 = prompt@;
        if let Some(task) = &self.task_instructions {
            push_str(&mut prompt, task.as_str());
            push_str(&mut prompt, "\n\n");
        }
        assert(prompt@ =~= p4 + opt_block(self.task_instructions));
        if let Some(subagent) = &self.subagent_context {
            push_str(&mut prompt, subagent.as_str());
        }
        let r = trim_end_string(prompt.as_str());
        proof {
            let whole = (if self.platform_rules@.len() > 0 {
                self.platform_rules@ + "\n\n"@
            } else {
                seq![]
            }) + opt_block(self.org_conventions) + opt_block(self.user_preferences) + (
            if self.skill_descriptions@.len() > 0 {
                self.skill_descriptions@ + "\n\n"@
            } else {
                seq![]
            }) + skill_blocks(self.loaded_skills@) + opt_block(self.task_instructions) + opt_text(self.subagent_context);
            assert(prompt@ =~= whole);
        }
        r
    }
}

impl Default for ResolvedContext {
    fn default() -> (r: Self)
        ensures
            r.is_blank(),
    {
        ResolvedContext {
            platform_rules: String::new(),
            org_conventions: None,
            user_preferences: None,
            memory_context: None,
            session_context: None,
            skill_descriptions: String::new(),
            loaded_skills: Vec::new(),
            task_instructions: None,
            subagent_context: None,
            allowed_tools: Vec::new(),
            blocked_tools: Vec::new(),
            permission_mode: PermissionMode::Normal,
            config_values: Vec::new(),
            enforce_english: false,
            max_token_limit: 0,
            active_layers: Vec::new(),
        }
    }
}

/// A layer of the context hierarchy.
pub trait ContextLayer {
    /// The layer's name.  A layer states it; the default, the empty name, is
    /// there for layers written outside this library.
    open spec fn name_spec(&self) -> Seq<char> {
        Seq::empty()
    }

    /// The layer's priority.  A layer states it; the default is the lowest.
    open spec fn priority_spec(&self) -> ContextPriority {
        ContextPriority::SubAgent
    }

    /// Applying the layer to the context `before` can give `after`.  A layer
    /// states its effect; by default any outcome is possible.
    open spec fn applies(&self, before: ResolvedContext, after: ResolvedContext) -> bool {
        true
    }

    /// Layer name for identification.
    fn layer_name(&self) -> (r: &str)
        ensures
            r@ == self.name_spec(),
    ;

    /// Priority (higher layers come first).
    fn priority(&self) -> (r: ContextPriority)
        ensures
            r == self.priority_spec(),
    ;

    /// Apply this layer to the resolved context.
    fn apply_to(&self, resolved: &mut ResolvedContext)
        ensures
            self.applies(*old(resolved), *final(resolved)),
    ;

    /// A layer can override a key set at `current_priority` only when its own
    /// priority is strictly higher.
    fn can_override(&self, _key: &str, current_priority: ContextPriority) -> bool {
        self.priority().level_exec() < current_priority.level_exec()
    }
}

/// The priorities of the layers, in the order given.
pub open spec fn layer_priorities(layers: Seq<&dyn ContextLayer>) -> Seq<ContextPriority> {
    Seq::new(layers.len(), |i: int| layers[i].priority_spec())
}

/// `s` with the layer of `o` added at its end, when there is one.
pub open spec fn push_present<'a>(
    s: Seq<&'a dyn ContextLayer>,
    o: Option<&'a dyn ContextLayer>,
) -> Seq<&'a dyn ContextLayer> {
    match o {
        Some(l) => s.push(l),
        None => s,
    }
}

/// The layers that are present, in the six-layer order.
pub open spec fn present_layers<'a>(
    platform: Option<&'a dyn ContextLayer>,
    organization: Option<&'a dyn ContextLayer>,
    user: Option<&'a dyn ContextLayer>,
    session: Option<&'a dyn ContextLayer>,
    task: Option<&'a dyn ContextLayer>,
    subagent: Option<&'a dyn ContextLayer>,
) -> Seq<&'a dyn ContextLayer> {
    push_present(
        push_present(
            push_present(
                push_present(push_present(push_present(Seq::empty(), platform), organization), user),
                session,
            ),
            task,
        ),
        subagent,
    )
}

/// `next` is `applied` with the layer name `name` added to its active layers,
/// everything else unchanged.
pub open spec fn named_after(applied: ResolvedContext, name: Seq<char>, next: ResolvedContext) -> bool {
    &&& views_of(next.active_layers@) == views_of(applied.active_layers@).push(name)
    &&& next == (ResolvedContext { active_layers: next.active_layers, ..applied })
}

/// `states` and `applied` trace the application of the layers at positions
/// `order`, one after the other, from the blank context: `states[i]` is the
/// context before the `i`-th of them, `applied[i]` what its `apply_to` left,
/// and `states[i + 1]` that with its name added to the active layers.
pub open spec fn resolution_trace(
    layers: Seq<&dyn ContextLayer>,
    order: Seq<int>,
    states: Seq<ResolvedContext>,
    applied: Seq<ResolvedContext>,
) -> bool {
    &&& states.len() == order.len() + 1
    &&& applied.len() == order.len()
    &&& states[0].is_blank()
    &&& forall|i: int|
        0 <= i < order.len() ==> #[trigger] layers[order[i]].applies(states[i], applied[i])
    &&& forall|i: int|
        0 <= i < order.len() ==> named_after(
            #[trigger] applied[i],
            layers[order[i]].name_spec(),
            states[i + 1],
        )
}

/// `r` is what applying the layers at positions `order`, one after the other,
/// gives from the blank context: each layer applied to the context the ones
/// before it left, then its name added to the active layers.
pub open spec fn resolved_by(layers: Seq<&dyn ContextLayer>, order: Seq<int>, r: ResolvedContext) -> bool {
    exists|states: Seq<ResolvedContext>, applied: Seq<ResolvedContext>|
        #[trigger] resolution_trace(layers, order, states, applied) && r == states.last()
}

/// Insert position `j` for an element of level `x` into `order`: after every
/// element whose level is at most `x`.
pub open spec fn insert_stable(order: Seq<int>, levels: Seq<nat>, idx: int) -> Seq<int>
    decreases order.len(),
{
    if order.len() == 0 {
        seq![idx]
    } else if levels[order.last()] <= levels[idx] {
        order.push(idx)
    } else {
        insert_stable(order.drop_last(), levels, idx).push(order.last())
    }
}

/// Indices `0..n` sorted stably by level (insertion order kept among equal levels).
pub open spec fn stable_order(levels: Seq<nat>, n: int) -> Seq<int>
    decreases n,
{
    if n <= 0 {
        seq![]
    } else {
        insert_stable(stable_order(levels, n - 1), levels, n - 1)
    }
}

/// Inserting an index keeps every index in range.
proof fn lemma_insert_stable_range(order: Seq<int>, levels: Seq<nat>, idx: int, n: int)
    requires
        forall|k: int| 0 <= k < order.len() ==> 0 <= #[trigger] order[k] < n,
        0 <= idx < n,
    ensures
        insert_stable(order, levels, idx).len() == order.len() + 1,
        forall|k: int|
            0 <= k < insert_stable(order, levels, idx).len() ==> 0 <= #[trigger] insert_stable(
                order,
                levels,
                idx,
            )[k] < n,
    decreases order.len(),
{
    if order.len() > 0 && !(levels[order.last()] <= levels[idx]) {
        lemma_insert_stable_range(order.drop_last(), levels, idx, n);
    }
}

/// The stable order lists `n` indices, each below `n`.
pub proof fn lemma_stable_order_range(levels: Seq<nat>, n: int)
    requires
        n >= 0,
    ensures
        stable_order(levels, n).len() == n,
        forall|k: int|
            0 <= k < stable_order(levels, n).len() ==> 0 <= #[trigger] stable_order(levels, n)[k]
                < n,
    decreases n,
{
    if n > 0 {
        lemma_stable_order_range(levels, n - 1);
        lemma_insert_stable_range(stable_order(levels, n - 1), levels, n - 1, n);
    }
}

/// Level of each priority in `ps`.
pub open spec fn levels_of(ps: Seq<ContextPriority>) -> Seq<nat> {
    Seq::new(ps.len(), |i: int| ps[i].level())
}

/// Indices of `priorities` in the order the resolver applies them: by level,
/// keeping the given order among equal levels.
pub fn layer_application_order(priorities: &[ContextPriority]) -> (r: Vec<usize>)
    ensures
        r@.len() == priorities@.len(),
        Seq::new(r@.len(), |k: int| r@[k] as int) == stable_order(
            levels_of(priorities@),
            priorities@.len() as int,
        ),
{
    let ghost levels = levels_of(priorities@);
    let mut order: Vec<usize> = Vec::new();
    let mut i: usize = 0;
    while i < priorities.len()
        invariant
            0 <= i <= priorities@.len(),
            levels == levels_of(priorities@),
            order@.len() == i,
            Seq::new(order@.len(), |k: int| order@[k] as int) == stable_order(levels, i as int),
            forall|k: int| 0 <= k < i ==> 0 <= #[trigger] order@[k] < i,
        decreases priorities.len() - i,
    {
        let lv = priorities[i].level_exec();
        let ghost before = Seq::new(order@.len(), |k: int| order@[k] as int);
        proof {
            lemma_stable_order_range(levels, i as int);
            assert(before.take(i as int) =~= before);
            assert(before.skip(i as int) =~= Seq::<int>::empty());
            assert(insert_stable(before, levels, i as int) =~= insert_stable(
                before.take(i as int),
                levels,
                i as int,
            ) + before.skip(i as int));
        }
        let mut j = order.len();
        while j > 0 && priorities[order[j - 1]].level_exec() > lv
            invariant
                0 <= j <= order@.len(),
                order@.len() == i,
                i < priorities@.len(),
                levels == levels_of(priorities@),
                lv == levels[i as int],
                before == Seq::new(order@.len(), |k: int| order@[k] as int),
                forall|k: int| 0 <= k < i ==> 0 <= #[trigger] order@[k] < i,
                insert_stable(before, levels, i as int) == insert_stable(
                    before.take(j as int),
                    levels,
                    i as int,
                ) + before.skip(j as int),
            decreases j,
        {
            proof {
                let t = before.take(j as int);
                assert(t.last() == order@[j - 1] as int);
                assert(t.drop_last() =~= before.take(j - 1));
                assert(before.skip(j - 1) =~= seq![t.last()] + before.skip(j as int));
                assert(insert_stable(t, levels, i as int) == insert_stable(
                    before.take(j - 1),
                    levels,
                    i as int,
                ).push(t.last()));
            }
            j = j - 1;
        }
        proof {
            let t = before.take(j as int);
            if j > 0 {
                assert(t.last() == order@[j - 1] as int);
                assert(insert_stable(t, levels, i as int) == t.push(i as int));
            } else {
                assert(insert_stable(t, levels, i as int) == seq![i as int]);
                assert(t.push(i as int) =~= seq![i as int]);
            }
        }
        order.insert(j, i);
        proof {
            let t = before.take(j as int);
            assert(Seq::new(order@.len(), |k: int| order@[k] as int) =~= t.push(i as int)
                + before.skip(j as int));
            assert(stable_order(levels, i + 1) == insert_stable(stable_order(levels, i as int), levels, i as int));
            assert(forall|k: int| 0 <= k < order@.len() ==> 0 <= #[trigger] order@[k] < i + 1) by {
                assert forall|k: int| 0 <= k < order@.len() implies 0 <= #[trigger] order@[k] < i + 1 by {
                    if k < j {
                        assert(order@[k] == before[k]);
                    } else if k > j {
                        assert(order@[k] == before[k - 1]);
                    }
                }
            }
        }
        i = i + 1;
    }
    proof {
        assert(priorities@.len() == i);
    }
    order
}

/// Context resolver that merges all layers.
pub struct ContextResolver {
    /// The priority that set each config key (first entry per key counts).
    key_priorities: Vec<(String, ContextPriority)>,
}

impl ContextResolver {
    /// Which priority set each config key.
    pub closed spec fn priorities(self) -> Seq<(String, ContextPriority)> {
        self.key_priorities@
    }

    /// A resolver with no recorded keys.
    pub fn new() -> (r: Self)
        ensures
            r.priorities().len() == 0,
    {
        ContextResolver { key_priorities: Vec::new() }
    }

    /// The priority that set `key`, if any layer set it.
    pub fn key_priority(&self, key: &str) -> (r: Option<ContextPriority>)
        ensures
            r == lookup(self.priorities(), key@),
    {
        match get_ref(&self.key_priorities, key) {
            Some(p) => Some(*p),
            None => None,
        }
    }

    /// Reset the resolver state.
    pub fn reset(&mut self)
        ensures
            final(self).priorities().len() == 0,
    {
        self.key_priorities = Vec::new();
    }

    /// Resolve context by applying layers in priority order.
    pub fn resolve(&mut self, layers: &[&dyn ContextLayer]) -> (r: ResolvedContext)
        ensures
            final(self).priorities().len() == 0,
            resolved_by(
                layers@,
                stable_order(levels_of(layer_priorities(layers@)), layers@.len() as int),
                r,
            ),
            layers@.len() == 0 ==> r.is_blank(),
    {
        self.reset();
        let mut resolved = ResolvedContext::default();
        let mut prios: Vec<ContextPriority> = Vec::new();
        let mut i: usize = 0;
        while i < layers.len()
            invariant
                0 <= i <= layers@.len(),
                prios@.len() == i,
                forall|j: int| 0 <= j < i ==> prios@[j] == (#[trigger] layers@[j]).priority_spec(),
            decreases layers.len() - i,
        {
            prios.push(layers[i].priority());
            i = i + 1;
        }
        let order = layer_application_order(prios.as_slice());
        proof {
            lemma_stable_order_range(levels_of(prios@), prios@.len() as int);
            let so = stable_order(levels_of(prios@), prios@.len() as int);
            assert forall|m: int| 0 <= m < order@.len() implies 0 <= #[trigger] order@[m] < layers@.len() by {
                assert(Seq::new(order@.len(), |k: int| order@[k] as int)[m] == so[m]);
            }
        }
        let ghost oi = Seq::new(order@.len(), |m: int| order@[m] as int);
        let ghost mut states: Seq<ResolvedContext> = seq![resolved];
        let ghost mut applieds: Seq<ResolvedContext> = Seq::empty();
        proof {
            assert(prios@ =~= layer_priorities(layers@));
            assert(oi.take(0) =~= Seq::<int>::empty());
        }
        let mut k: usize = 0;
        while k < order.len()
            invariant
                0 <= k <= order@.len(),
                order@.len() == layers@.len(),
                oi == Seq::new(order@.len(), |m: int| order@[m] as int),
                forall|m: int| 0 <= m < order@.len() ==> 0 <= #[trigger] order@[m] < layers@.len(),
                resolution_trace(layers@, oi.take(k as int), states, applieds),
                resolved == states.last(),
            decreases order.len() - k,
        {
            let layer = layers[order[k]];
            let ghost mid = resolved;
            layer.apply_to(&mut resolved);
            let ghost applied = resolved;
            let name = to_owned(layer.layer_name());
            resolved.active_layers.push(name);
            proof {
                let t = oi.take(k + 1);
                let old_states = states;
                let old_applieds = applieds;
                states = states.push(resolved);
                applieds = applieds.push(applied);
                assert(t.last() == order@[k as int] as int);
                assert(views_of(resolved.active_layers@) =~= views_of(applied.active_layers@).push(
                    layers@[t.last()].name_spec(),
                ));
                assert(named_after(applied, layers@[t.last()].name_spec(), resolved));
                assert forall|i: int| 0 <= i < t.len() implies #[trigger] layers@[t[i]].applies(
                    states[i],
                    applieds[i],
                ) by {
                    if i < k {
                        assert(t[i] == oi.take(k as int)[i]);
                        assert(old_applieds[i] == applieds[i]);
                        assert(layers@[oi.take(k as int)[i]].applies(old_states[i], old_applieds[i]));
                    }
                }
                assert forall|i: int| 0 <= i < t.len() implies named_after(
                    #[trigger] applieds[i],
                    layers@[t[i]].name_spec(),
                    states[i + 1],
                ) by {
                    if i < k {
                        assert(t[i] == oi.take(k as int)[i]);
                        assert(old_applieds[i] == applieds[i]);
                        assert(named_after(
                            old_applieds[i],
                            layers@[oi.take(k as int)[i]].name_spec(),
                            old_states[i + 1],
                        ));
                    }
                }
                assert(resolution_trace(layers@, t, states, applieds));
            }
            k = k + 1;
        }
        proof {
            assert(oi.take(order@.len() as int) =~= oi);
            assert(resolution_trace(layers@, oi, states, applieds));
        }
        resolved
    }

    /// Resolve the layers that are present, in the six-layer order.
    pub fn resolve_full(
        &mut self,
        platform: Option<&dyn ContextLayer>,
        organization: Option<&dyn ContextLayer>,
        user: Option<&dyn ContextLayer>,
        session: Option<&dyn ContextLayer>,
        task: Option<&dyn ContextLayer>,
        subagent: Option<&dyn ContextLayer>,
    ) -> (r: ResolvedContext)
        ensures
            final(self).priorities().len() == 0,
            ({
                let present = present_layers(platform, organization, user, session, task, subagent);
                resolved_by(
                    present,
                    stable_order(levels_of(layer_priorities(present)), present.len() as int),
                    r,
                )
            }),
            present_layers(platform, organization, user, session, task, subagent).len() == 0
                ==> r.is_blank(),
    {
        let mut layers: Vec<&dyn ContextLayer> = Vec::new();
        if let Some(l) = platform {
            layers.push(l);
        }
        if let Some(l) = organization {
            layers.push(l);
        }
        if let Some(l) = user {
            layers.push(l);
        }
        if let Some(l) = session {
            layers.push(l);
        }
        if let Some(l) = task {
            layers.push(l);
        }
        if let Some(l) = subagent {
            layers.push(l);
        }
        self.resolve(layers.as_slice())
    }

    /// Set a config value, unless the key was set at an equal or higher priority.
    /// Config values follow the strict priority order (`level`): a key keeps
    /// the value of the highest layer that set it, so a User value does not
    /// replace an Organization one.  This is the value rule; which layers may
    /// override which in their rules is `can_override` (see `overrides`).
    pub fn set_config(
        &mut self,
        resolved: &mut ResolvedContext,
        key: &str,
        value: serde_json::Value,
        priority: ContextPriority,
    )
        ensures
            ({
                let blocked = match lookup(old(self).priorities(), key@) {
                    Some(p) => priority.level() >= p.level(),
                    None => false,
                };
                if blocked {
                    final(self).priorities() == old(self).priorities() && *final(resolved) == *old(resolved)
                } else {
                    &&& lookup(final(self).priorities(), key@) == Some(priority)
                    &&& lookup(final(resolved).config_values@, key@) == Some(value)
                    &&& forall|k: Seq<char>|
                        k != key@ ==> lookup(final(self).priorities(), k) == lookup(
                            old(self).priorities(),
                            k,
                        ) && lookup(final(resolved).config_values@, k) == lookup(
                            old(resolved).config_values@,
                            k,
                        )
                    &&& final(resolved).platform_rules == old(resolved).platform_rules
                    &&& final(resolved).allowed_tools == old(resolved).allowed_tools
                    &&& final(resolved).blocked_tools == old(resolved).blocked_tools
                    &&& final(resolved).active_layers == old(resolved).active_layers
                }
            }),
    {
        if let Some(existing) = get_ref(&self.key_priorities, key) {
            if priority.level_exec() >= existing.level_exec() {
                return;
            }
        }
        put(&mut resolved.config_values, key, value);
        put(&mut self.key_priorities, key, priority);
    }

    /// Add config values whose keys no layer has set yet; keys already set keep
    /// their values.
    pub fn extend_config(
        &mut self,
        resolved: &mut ResolvedContext,
        values: &Vec<(String, serde_json::Value)>,
        priority: ContextPriority,
    )
        ensures
            forall|k: Seq<char>|
                has_key(old(self).priorities(), k) ==> lookup(final(self).priorities(), k)
                    == lookup(old(self).priorities(), k) && lookup(
                    final(resolved).config_values@,
                    k,
                ) == lookup(old(resolved).config_values@, k),
            forall|k: Seq<char>|
                !has_key(old(self).priorities(), k) && !has_key(values@, k) ==> lookup(
                    final(self).priorities(),
                    k,
                ) == lookup(old(self).priorities(), k) && lookup(
                    final(resolved).config_values@,
                    k,
                ) == lookup(old(resolved).config_values@, k),
            forall|k: Seq<char>|
                !has_key(old(self).priorities(), k) && has_key(values@, k) ==> lookup(
                    final(self).priorities(),
                    k,
                ) == Some(priority) && lookup(final(resolved).config_values@, k) == lookup(
                    values@,
                    k,
                ),
    {
        let ghost p0 = self.key_priorities@;
        let ghost c0 = resolved.config_values@;
        let mut i: usize = 0;
        while i < values.len()
            invariant
                0 <= i <= values@.len(),
                forall|k: Seq<char>|
                    has_key(p0, k) ==> lookup(self.key_priorities@, k) == lookup(p0, k) && lookup(
                        resolved.config_values@,
                        k,
                    ) == lookup(c0, k),
                forall|k: Seq<char>|
                    !has_key(p0, k) && !has_key(values@.take(i as int), k) ==> lookup(
                        self.key_priorities@,
                        k,
                    ) == lookup(p0, k) && lookup(resolved.config_values@, k) == lookup(c0, k),
                forall|k: Seq<char>|
                    !has_key(p0, k) && has_key(values@.take(i as int), k) ==> lookup(
                        self.key_priorities@,
                        k,
                    ) == Some(priority) && lookup(resolved.config_values@, k) == lookup(
                        values@.take(i as int),
                        k,
                    ),
            decreases values.len() - i,
        {
            let key = values[i].0.as_str();
            let ghost pre = values@.take(i as int);
            let ghost post = values@.take(i + 1);
            proof {
                assert(post =~= pre.push(values@[i as int]));
                crate::keyed::lemma_lookup_push(pre, values@[i as int]);
            }
            if get_ref(&self.key_priorities, key).is_none() {
                let v = values[i].1.clone();
                put(&mut resolved.config_values, key, v);
                put(&mut self.key_priorities, key, priority);
            }
            i = i + 1;
        }
        proof {
            assert(values@.take(values@.len() as int) =~= values@);
        }
    }

    /// Merge tools from a layer: blocked tools accumulate; a non-empty allow list
    /// is adopted when none is set, and otherwise narrows the current one.
    pub fn merge_tools(&self, resolved: &mut ResolvedContext, allowed: &[String], blocked: &[String])
        ensures
            forall|t: Seq<char>|
                names_contain(final(resolved).blocked_tools@, t) <==> (names_contain(
                    old(resolved).blocked_tools@,
                    t,
                ) || names_contain(blocked@, t)),
            allowed@.len() == 0 ==> final(resolved).allowed_tools == old(resolved).allowed_tools,
            allowed@.len() > 0 && old(resolved).allowed_tools@.len() == 0 ==> final(resolved).allowed_tools@ == allowed@,
            allowed@.len() > 0 && old(resolved).allowed_tools@.len() > 0 ==> final(resolved).allowed_tools@ == old(resolved).allowed_tools@.filter(
                |t: String| names_contain(allowed@, t@),
            ),
    {
        let mut i: usize = 0;
        let ghost b0 = resolved.blocked_tools@;
        let ghost a_init = resolved.allowed_tools;
        while i < blocked.len()
            invariant
                0 <= i <= blocked@.len(),
                resolved.allowed_tools == a_init,
                forall|t: Seq<char>|
                    names_contain(resolved.blocked_tools@, t) <==> (names_contain(b0, t)
                        || names_contain(blocked@.take(i as int), t)),
            decreases blocked.len() - i,
        {
            let tool = &blocked[i];
            let ghost before = resolved.blocked_tools@;
            assert(forall|t: Seq<char>| #[trigger] names_contain(before, t) == (names_contain(b0, t) || names_contain(blocked@.take(i as int), t)));
            if !crate::keyed::contains_string(&resolved.blocked_tools, tool.as_str()) {
                resolved.blocked_tools.push(tool.clone());
            }
            proof {
                assert(blocked@.take(i + 1) =~= blocked@.take(i as int).push(*tool));
                lemma_names_push(blocked@.take(i as int), *tool);
                if resolved.blocked_tools@.len() > before.len() {
                    assert(resolved.blocked_tools@ == before.push(*tool));
                    lemma_names_push(before, *tool);
                } else {
                    assert(names_contain(before, tool@));
                }
                assert forall|t: Seq<char>|
                    names_contain(resolved.blocked_tools@, t) <==> (names_contain(b0, t)
                        || names_contain(blocked@.take(i + 1), t)) by {
                    assert(names_contain(blocked@.take(i + 1), t) == (names_contain(blocked@.take(i as int), t) || tool@ == t));
                    assert(names_contain(before, t) == (names_contain(b0, t) || names_contain(blocked@.take(i as int), t)));
                    if resolved.blocked_tools@.len() == before.len() {
                        assert(resolved.blocked_tools@ == before);
                        if tool@ == t {
                            assert(names_contain(before, t));
                        }
                    }
                    if resolved.blocked_tools@.len() > before.len() {
                        assert(names_contain(resolved.blocked_tools@, t) == (names_contain(before, t) || tool@ == t));
                    }
                }
            }
            i = i + 1;
        }
        proof {
            assert(blocked@.take(blocked@.len() as int) =~= blocked@);
        }
        if allowed.len() > 0 {
            if resolved.allowed_tools.len() == 0 {
                let mut copy: Vec<String> = Vec::new();
                let mut j: usize = 0;
                while j < allowed.len()
                    invariant
                        0 <= j <= allowed@.len(),
                        copy@ == allowed@.take(j as int),
                    decreases allowed.len() - j,
                {
                    copy.push(allowed[j].clone());
                    j = j + 1;
                    assert(copy@ =~= allowed@.take(j as int));
                }
                assert(allowed@.take(allowed@.len() as int) =~= allowed@);
                resolved.allowed_tools = copy;
            } else {
                let ghost a0 = resolved.allowed_tools@;
                let ghost pred = |t: String| names_contain(allowed@, t@);
                let mut kept: Vec<String> = Vec::new();
                let mut j: usize = 0;
                while j < resolved.allowed_tools.len()
                    invariant
                        0 <= j <= a0.len(),
                        resolved.allowed_tools@ == a0,
                        pred == (|t: String| names_contain(allowed@, t@)),
                        kept@ == a0.take(j as int).filter(pred),
                    decreases a0.len() - j,
                {
                    let t = &resolved.allowed_tools[j];
                    let keep = Self::slice_contains(allowed, t.as_str());
                    proof {
                        reveal_with_fuel(Seq::<_>::filter, 1);
                        assert(a0.take(j + 1).drop_last() =~= a0.take(j as int));
                        assert(a0.take(j + 1).last() == *t);
                    }
                    if keep {
                        kept.push(t.clone());
                    }
                    j = j + 1;
                }
                assert(a0.take(a0.len() as int) =~= a0);
                resolved.allowed_tools = kept;
            }
        }
    }

    /// Whether some string of `v` equals `s`.
    fn slice_contains(v: &[String], s: &str) -> (r: bool)
        ensures
            r == names_contain(v@, s@),
    {
        let mut i: usize = 0;
        while i < v.len()
            invariant
                0 <= i <= v@.len(),
                forall|j: int| 0 <= j < i ==> (#[trigger] v@[j])@ != s@,
            decreases v.len() - i,
        {
            if crate::text::str_eq(v[i].as_str(), s) {
                return true;
            }
            i = i + 1;
        }
        false
    }
}

/// Appending a string adds exactly its name.
pub proof fn lemma_names_push(v: Seq<String>, s: String)
    ensures
        forall|t: Seq<char>| #[trigger] names_contain(v.push(s), t) == (names_contain(v, t) || s@ == t),
{
    assert forall|t: Seq<char>| #[trigger] names_contain(v.push(s), t) == (names_contain(v, t) || s@ == t) by {
        if names_contain(v.push(s), t) {
            let j = choose|j: int| 0 <= j < v.push(s).len() && (#[trigger] v.push(s)[j])@ == t;
            if j < v.len() {
                assert(v[j]@ == t);
            }
        }
        if names_contain(v, t) {
            let j = choose|j: int| 0 <= j < v.len() && (#[trigger] v[j])@ == t;
            assert(v.push(s)[j]@ == t);
        }
        if s@ == t {
            assert(v.push(s)[v.len() as int]@ == t);
        }
    }
}

/// After a merge, a blocked tool is never allowed, whatever the allow list says.
pub proof fn lemma_blocked_never_allowed(ctx: ResolvedContext, tool: Seq<char>)
    requires
        names_contain(ctx.blocked_tools@, tool),
    ensures
        !ctx.tool_allowed(tool),
{
}

} // verus!
