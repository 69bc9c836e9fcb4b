//! The sub-agent layer of the context hierarchy: isolated, inheriting or
//! forked sub-agents, their tool restrictions and their instructions.
use vstd::prelude::*;

use crate::context::flags::random_uuid_text;


use crate::context::resolver::{
    ContextLayer, ContextPriority, LoadedSkill, PermissionMode, ResolvedContext,
};
use crate::context::session::SessionContext;
use crate::context::task::{copy_skill, has_skill_named, holds_string, merged_skills, skill_named};
use crate::keyed::{find_key, get_ref, has_key, lemma_lookup_push, lookup, put};
use crate::text::{decimal, push_decimal, push_str, to_owned, views_of};

verus! {

/// The calendar text `%Y-%m-%d %H:%M:%S UTC` of an instant given in
/// milliseconds since the Unix epoch, or `None` where chrono cannot represent
/// the instant.
pub uninterp spec fn utc_stamp(ms: i64) -> Option<Seq<char>>;

/// `chrono::Utc::now().timestamp_millis()`.  Nothing is promised of it: it is
/// the clock's time.
#[verifier::external_body]
pub(crate) fn utc_now_millis() -> i64 {
    chrono::Utc::now().timestamp_millis()
}

/// `DateTime::from_timestamp_millis(ms)` rendered with
/// `format("%Y-%m-%d %H:%M:%S UTC")`; the text is the named `utc_stamp`.
#[verifier::external_body]
fn utc_millis_text(ms: i64) -> (r: Option<String>)
    ensures
        match r {
            Some(t) => utc_stamp(ms) == Some(t@),
            None => utc_stamp(ms) is None,
        },
{
    match chrono::DateTime::from_timestamp_millis(ms) {
        Some(t) => Some(t.format("%Y-%m-%d %H:%M:%S UTC").to_string()),
        None => None,
    }
}

/// How a sub-agent sees its parent's context.
#[derive(Debug, Clone, Copy, PartialEq, Eq, Structural)]
pub enum ContextForkMode {
    /// Complete isolation: no parent context.
    Isolated,
    /// Read-only access to the parent context.
    Inherit,
    /// Independent copy of the parent context.
    Fork,
}

impl Default for ContextForkMode {
    fn default() -> (r: Self)
        ensures
            r == ContextForkMode::Isolated,
    {
        ContextForkMode::Isolated
    }
}

/// Sub-agent-level context.  Configuration values are kept by key.
#[derive(Debug, Clone)]
pub struct SubAgentContext {
    /// Sub-agent identifier.
    pub subagent_id: String,
    /// Agent type or role.
    pub agent_type: String,
    /// Parent session.
    pub parent_session_id: Option<uuid::Uuid>,
    /// Context fork mode.
    pub fork_mode: ContextForkMode,
    /// Forked parent context (in fork mode).
    pub forked_context: Option<ForkedContext>,
    /// Sub-agent-specific instructions.
    pub specific_instructions: String,
    /// Tools allowed for this sub-agent.
    pub allowed_tools: Vec<String>,
    /// Tools blocked for this sub-agent.
    pub blocked_tools: Vec<String>,
    /// Permission mode for this sub-agent.
    pub permission_mode: PermissionMode,
    /// Maximum turns allowed.
    pub max_turns: Option<u32>,
    /// Custom configuration, by key.
    pub config: Vec<(String, serde_json::Value)>,
}

/// A copy of the parent's context taken when forking.
#[derive(Debug, Clone)]
pub struct ForkedContext {
    /// The parent's working files.
    pub working_files: Vec<String>,
    /// The parent's loaded skills.
    pub loaded_skills: Vec<LoadedSkill>,
    /// The parent's discoveries.
    pub discoveries: Vec<String>,
    /// The parent's custom context, by key.
    pub custom_context: Vec<(String, serde_json::Value)>,
    /// When the fork was taken.
    pub forked_at: i64,
    /// The parent task's description, if any.
    pub task_description: Option<String>,
}

impl Default for ForkedContext {
    fn default() -> (r: Self)
        ensures
            r.working_files@.len() == 0,
            r.loaded_skills@.len() == 0,
            r.discoveries@.len() == 0,
            r.custom_context@.len() == 0,
            r.task_description is None,
    {
        ForkedContext {
            working_files: Vec::new(),
            loaded_skills: Vec::new(),
            discoveries: Vec::new(),
            custom_context: Vec::new(),
            forked_at: utc_now_millis(),
            task_description: None,
        }
    }
}

/// A sub-agent of the given type with nothing else set: isolated, normal
/// permissions, no tools listed and no limits.
pub open spec fn plain_subagent(s: SubAgentContext) -> bool {
    &&& s.parent_session_id is None
    &&& s.fork_mode == ContextForkMode::Isolated
    &&& s.forked_context is None
    &&& s.specific_instructions@.len() == 0
    &&& s.allowed_tools@.len() == 0
    &&& s.blocked_tools@.len() == 0
    &&& s.permission_mode == PermissionMode::Normal
    &&& s.max_turns is None
    &&& s.config@.len() == 0
}

impl Default for SubAgentContext {
    fn default() -> (r: Self)
        ensures
            plain_subagent(r),
            r.agent_type@ == "general"@,
    {
        SubAgentContext {
            subagent_id: random_uuid_text(),
            agent_type: to_owned("general"),
            parent_session_id: None,
            fork_mode: ContextForkMode::Isolated,
            forked_context: None,
            specific_instructions: String::new(),
            allowed_tools: Vec::new(),
            blocked_tools: Vec::new(),
            permission_mode: PermissionMode::Normal,
            max_turns: None,
            config: Vec::new(),
        }
    }
}

/// The keys of a keyed list, in order.
pub open spec fn keys_of<V>(v: Seq<(String, V)>) -> Seq<Seq<char>> {
    Seq::new(v.len(), |i: int| v[i].0@)
}

/// Copies of the keys of a keyed list, in order.
pub(crate) fn key_strings<V>(v: &Vec<(String, V)>) -> (r: Vec<String>)
    ensures
        views_of(r@) == keys_of(v@),
{
    let mut files: Vec<String> = Vec::new();
    let mut i: usize = 0;
    while i < v.len()
        invariant
            0 <= i <= v@.len(),
            files@.len() == i,
            views_of(files@) == keys_of(v@).take(i as int),
        decreases v.len() - i,
    {
        let ghost before = files@;
        files.push(v[i].0.clone());
        proof {
            let keys = keys_of(v@);
            assert forall|k: int| 0 <= k < i + 1 implies #[trigger] views_of(files@)[k]
                == keys.take(i + 1)[k] by {
                if k < i {
                    assert(views_of(before)[k] == keys.take(i as int)[k]);
                    assert(files@[k] == before[k]);
                }
            }
            assert(views_of(files@) =~= keys.take(i + 1));
        }
        i = i + 1;
    }
    proof {
        assert(keys_of(v@).take(v@.len() as int) =~= keys_of(v@));
    }
    files
}

/// The strings of `a` that `b` also holds, in `a`'s order.
pub open spec fn kept_in(a: Seq<String>, b: Seq<String>) -> Seq<String>
    decreases a.len(),
{
    if a.len() == 0 {
        seq![]
    } else if views_of(b).contains(a.last()@) {
        kept_in(a.drop_last(), b).push(a.last())
    } else {
        kept_in(a.drop_last(), b)
    }
}

/// Narrowing `a` to the strings `b` lists keeps exactly the strings of `a`
/// that `b` also lists, each as often and in the order `a` has it: every kept
/// string is listed in both, every string of `a` that `b` lists is kept, and
/// the kept strings form a subsequence of `a`.
pub proof fn lemma_kept_in_intersection(a: Seq<String>, b: Seq<String>)
    ensures
        kept_in(a, b).len() <= a.len(),
        forall|i: int|
            0 <= i < kept_in(a, b).len() ==> views_of(b).contains(#[trigger] kept_in(a, b)[i]@)
                && a.contains(kept_in(a, b)[i]),
        forall|i: int|
            0 <= i < a.len() && views_of(b).contains(#[trigger] a[i]@) ==> kept_in(a, b).contains(
                a[i],
            ),
    decreases a.len(),
{
    if a.len() > 0 {
        let p = a.drop_last();
        lemma_kept_in_intersection(p, b);
        let k = kept_in(a, b);
        let kp = kept_in(p, b);
        let keep = views_of(b).contains(a.last()@);
        if keep {
            assert(k == kp.push(a.last()));
        } else {
            assert(k == kp);
        }
        assert forall|i: int| 0 <= i < k.len() implies views_of(b).contains(#[trigger] k[i]@)
            && a.contains(k[i]) by {
            if i < kp.len() {
                assert(k[i] == kp[i]);
                assert(views_of(b).contains(kp[i]@));
                assert(p.contains(kp[i]));
                let m = choose|m: int| 0 <= m < p.len() && p[m] == kp[i];
                assert(a[m] == p[m]);
            } else {
                assert(k[i] == a.last());
                assert(a[a.len() - 1] == a.last());
            }
        }
        assert forall|i: int| 0 <= i < a.len() && views_of(b).contains(#[trigger] a[i]@) implies k.contains(
            a[i],
        ) by {
            if i < p.len() {
                assert(p[i] == a[i]);
                assert(kp.contains(p[i]));
                let m = choose|m: int| 0 <= m < kp.len() && kp[m] == p[i];
                assert(k[m] == kp[m]);
            } else {
                assert(a[i] == a.last());
                assert(k[k.len() - 1] == a.last());
            }
        }
    }
}

/// A sub-agent with an allow list narrows the allowed tools to it: after
/// the sub-agent layer is applied, every allowed tool is one the sub-agent
/// lists; when tools were allowed before, the allowed tools are exactly those
/// allowed before that the sub-agent also lists, in their earlier order.
pub proof fn lemma_subagent_narrows_allowed(
    s: SubAgentContext,
    before: ResolvedContext,
    after: ResolvedContext,
)
    requires
        s.applies(before, after),
        s.allowed_tools@.len() > 0,
    ensures
        forall|i: int|
            0 <= i < after.allowed_tools@.len() ==> views_of(s.allowed_tools@).contains(
                #[trigger] after.allowed_tools@[i]@,
            ),
        before.allowed_tools@.len() > 0 ==> {
            &&& after.allowed_tools@.len() <= before.allowed_tools@.len()
            &&& forall|i: int|
                0 <= i < after.allowed_tools@.len() ==> before.allowed_tools@.contains(
                    #[trigger] after.allowed_tools@[i],
                )
            &&& forall|i: int|
                0 <= i < before.allowed_tools@.len() && views_of(s.allowed_tools@).contains(
                    #[trigger] before.allowed_tools@[i]@,
                ) ==> after.allowed_tools@.contains(before.allowed_tools@[i])
        },
{
    let a = after.allowed_tools@;
    if before.allowed_tools@.len() == 0 {
        assert forall|i: int| 0 <= i < a.len() implies views_of(s.allowed_tools@).contains(
            #[trigger] a[i]@,
        ) by {
            assert(views_of(s.allowed_tools@)[i] == a[i]@);
        }
    } else {
        let bt = before.allowed_tools@;
        lemma_kept_in_intersection(bt, s.allowed_tools@);
        let k = kept_in(bt, s.allowed_tools@);
        assert(a == k);
        assert forall|i: int| 0 <= i < a.len() implies views_of(s.allowed_tools@).contains(
            #[trigger] a[i]@,
        ) by {
            assert(a[i] == k[i]);
        }
        assert forall|i: int| 0 <= i < a.len() implies bt.contains(#[trigger] a[i]) by {
            assert(a[i] == k[i]);
            assert(views_of(s.allowed_tools@).contains(k[i]@));
        }
        assert forall|i: int|
            0 <= i < bt.len() && views_of(s.allowed_tools@).contains(
                #[trigger] bt[i]@,
            ) implies a.contains(bt[i]) by {}
    }
}

/// `a` followed by each string of `add` it does not yet hold.
pub open spec fn union_strings(a: Seq<String>, add: Seq<String>) -> Seq<String>
    decreases add.len(),
{
    if add.len() == 0 {
        a
    } else {
        let m = union_strings(a, add.drop_last());
        if views_of(m).contains(add.last()@) {
            m
        } else {
            m.push(add.last())
        }
    }
}

/// A sequence with one more element holds that element and what it held.
proof fn lemma_push_contains(x: Seq<Seq<char>>, y: Seq<char>, s: Seq<char>)
    ensures
        x.push(y).contains(s) == (x.contains(s) || y == s),
{
    if x.contains(s) {
        let i = choose|i: int| 0 <= i < x.len() && x[i] == s;
        assert(x.push(y)[i] == s);
    }
    if y == s {
        assert(x.push(y)[x.len() as int] == s);
    }
    if x.push(y).contains(s) {
        let i = choose|i: int| 0 <= i < x.push(y).len() && x.push(y)[i] == s;
        if i < x.len() {
            assert(x[i] == s);
        }
    }
}

/// The union holds exactly the names of both lists.
pub proof fn lemma_union_strings_contains(a: Seq<String>, add: Seq<String>, s: Seq<char>)
    ensures
        views_of(union_strings(a, add)).contains(s) == (views_of(a).contains(s) || views_of(
            add,
        ).contains(s)),
    decreases add.len(),
{
    if add.len() == 0 {
        assert(!views_of(add).contains(s));
    } else {
        let rest = add.drop_last();
        let e = add.last();
        lemma_union_strings_contains(a, rest, s);
        let m = union_strings(a, rest);
        assert(views_of(add) =~= views_of(rest).push(e@));
        lemma_push_contains(views_of(rest), e@, s);
        if !views_of(m).contains(e@) {
            assert(views_of(m.push(e)) =~= views_of(m).push(e@));
            lemma_push_contains(views_of(m), e@, s);
        } else {
            lemma_union_strings_contains(a, rest, e@);
        }
    }
}

/// `a` followed by each entry of `add` whose key it does not yet hold.
pub open spec fn add_missing_keys<V>(a: Seq<(String, V)>, add: Seq<(String, V)>) -> Seq<(String, V)>
    decreases add.len(),
{
    if add.len() == 0 {
        a
    } else {
        let m = add_missing_keys(a, add.drop_last());
        if has_key(m, add.last().0@) {
            m
        } else {
            m.push(add.last())
        }
    }
}

/// Adding missing keys keeps every value already present and supplies the
/// added value for each key that was absent.
pub proof fn lemma_add_missing_keys_lookup<V>(a: Seq<(String, V)>, add: Seq<(String, V)>, k: Seq<char>)
    ensures
        has_key(add_missing_keys(a, add), k) == (has_key(a, k) || has_key(add, k)),
        lookup(add_missing_keys(a, add), k) == if has_key(a, k) {
            lookup(a, k)
        } else {
            lookup(add, k)
        },
    decreases add.len(),
{
    if add.len() > 0 {
        let rest = add.drop_last();
        let e = add.last();
        lemma_add_missing_keys_lookup(a, rest, k);
        lemma_lookup_push(rest, e);
        assert(add =~= rest.push(e));
        let m = add_missing_keys(a, rest);
        if !has_key(m, e.0@) {
            lemma_lookup_push(m, e);
        } else {
            lemma_add_missing_keys_lookup(a, rest, e.0@);
        }
    }
}

/// The line describing how the sub-agent sees its parent.
pub open spec fn mode_lines(s: SubAgentContext, forked_at: Seq<char>) -> Seq<char> {
    match s.fork_mode {
        ContextForkMode::Isolated => "- Isolated execution (no parent context access)\n"@,
        ContextForkMode::Inherit => "- Inheriting parent context (read-only)\n"@,
        ContextForkMode::Fork => "- Forked parent context (independent copy)\n"@ + match s.forked_context {
            Some(f) => "- Forked at: "@ + forked_at + "\n"@ + (if f.working_files@.len() > 0 {
                "- Inherited "@ + decimal(f.working_files@.len()) + " working files\n"@
            } else {
                seq![]
            }) + (if f.loaded_skills@.len() > 0 {
                "- Inherited "@ + decimal(f.loaded_skills@.len()) + " skills\n"@
            } else {
                seq![]
            }),
            None => seq![],
        },
    }
}

/// The text of the fork time shown in a sub-agent's instructions: the
/// calendar text of `forked_at`, or nothing where there is none.
pub open spec fn fork_stamp(s: SubAgentContext) -> Seq<char> {
    match s.forked_context {
        Some(f) => match utc_stamp(f.forked_at) {
            Some(t) => t,
            None => seq![],
        },
        None => seq![],
    }
}

/// The instructions a sub-agent adds, given the text of its fork time.
pub open spec fn subagent_text(s: SubAgentContext, forked_at: Seq<char>) -> Seq<char> {
    "## SubAgent: "@ + s.agent_type@ + "\n\n"@ + (if s.specific_instructions@.len() > 0 {
        s.specific_instructions@ + "\n\n"@
    } else {
        seq![]
    }) + "### Context Mode\n\n"@ + mode_lines(s, forked_at) + match s.max_turns {
        Some(m) => "\n- Max turns: "@ + decimal(m as nat) + "\n"@,
        None => seq![],
    }
}

impl SubAgentContext {
    /// An isolated sub-agent of the given type.
    pub fn new(agent_type: &str) -> (r: Self)
        ensures
            plain_subagent(r),
            r.agent_type@ == agent_type@,
    {
        let mut s = SubAgentContext::default();
        s.agent_type = to_owned(agent_type);
        s
    }

    /// A sub-agent that reads its parent's context.
    pub fn inherit(agent_type: &str, parent_session_id: uuid::Uuid) -> (r: Self)
        ensures
            plain_subagent(
                SubAgentContext {
                    parent_session_id: None,
                    fork_mode: ContextForkMode::Isolated,
                    ..r
                },
            ),
            r.parent_session_id == Some(parent_session_id),
            r.fork_mode == ContextForkMode::Inherit,
            r.agent_type@ == agent_type@,
    {
        let mut s = SubAgentContext::default();
        s.agent_type = to_owned(agent_type);
        s.parent_session_id = Some(parent_session_id);
        s.fork_mode = ContextForkMode::Inherit;
        s
    }

    /// A sub-agent with a copy of its parent session's files, skills and
    /// custom context.
    pub fn fork<M>(agent_type: &str, parent: &SessionContext<M>) -> (r: Self)
        ensures
            plain_subagent(
                SubAgentContext {
                    parent_session_id: None,
                    fork_mode: ContextForkMode::Isolated,
                    forked_context: None,
                    ..r
                },
            ),
            r.parent_session_id == Some(parent.session_id),
            r.fork_mode == ContextForkMode::Fork,
            r.forked_context matches Some(f) && views_of(f.working_files@) == keys_of(
                parent.working_files@,
            ) && f.loaded_skills@ == parent.loaded_skills@ && f.discoveries@.len() == 0
                && f.custom_context@ == parent.custom_context@ && f.task_description is None,
            r.agent_type@ == agent_type@,
    {
        let files = key_strings(&parent.working_files);
        let mut skills: Vec<LoadedSkill> = Vec::new();
        let mut k: usize = 0;
        while k < parent.loaded_skills.len()
            invariant
                0 <= k <= parent.loaded_skills@.len(),
                skills@ == parent.loaded_skills@.take(k as int),
            decreases parent.loaded_skills.len() - k,
        {
            skills.push(copy_skill(&parent.loaded_skills[k]));
            proof {
                assert(skills@ =~= parent.loaded_skills@.take(k + 1));
            }
            k = k + 1;
        }
        proof {
            assert(parent.loaded_skills@.take(parent.loaded_skills@.len() as int)
                =~= parent.loaded_skills@);
        }
        let mut custom: Vec<(String, serde_json::Value)> = Vec::new();
        let mut j: usize = 0;
        while j < parent.custom_context.len()
            invariant
                0 <= j <= parent.custom_context@.len(),
                custom@ == parent.custom_context@.take(j as int),
            decreases parent.custom_context.len() - j,
        {
            custom.push((parent.custom_context[j].0.clone(), parent.custom_context[j].1.clone()));
            proof {
                assert(custom@ =~= parent.custom_context@.take(j + 1));
            }
            j = j + 1;
        }
        proof {
            assert(parent.custom_context@.take(parent.custom_context@.len() as int)
                =~= parent.custom_context@);
        }
        let forked = ForkedContext {
            working_files: files,
            loaded_skills: skills,
            discoveries: Vec::new(),
            custom_context: custom,
            forked_at: utc_now_millis(),
            task_description: None,
        };
        let mut s = SubAgentContext::default();
        s.agent_type = to_owned(agent_type);
        s.parent_session_id = Some(parent.session_id);
        s.fork_mode = ContextForkMode::Fork;
        s.forked_context = Some(forked);
        s
    }

    /// Set the sub-agent's instructions.
    pub fn set_instructions(&mut self, instructions: &str)
        ensures
            final(self).specific_instructions@ == instructions@,
            *final(self) == (SubAgentContext {
                specific_instructions: final(self).specific_instructions,
                ..*old(self)
            }),
    {
        self.specific_instructions = to_owned(instructions);
    }

    /// Allow a tool.
    pub fn allow_tool(&mut self, tool: &str)
        ensures
            final(self).allowed_tools@.len() == old(self).allowed_tools@.len() + 1,
            final(self).allowed_tools@.drop_last() == old(self).allowed_tools@,
            final(self).allowed_tools@.last()@ == tool@,
            *final(self) == (SubAgentContext { allowed_tools: final(self).allowed_tools, ..*old(self) }),
    {
        let ghost before = self.allowed_tools@;
        self.allowed_tools.push(to_owned(tool));
        proof {
            assert(self.allowed_tools@.drop_last() =~= before);
        }
    }

    /// Block a tool.
    pub fn block_tool(&mut self, tool: &str)
        ensures
            final(self).blocked_tools@.len() == old(self).blocked_tools@.len() + 1,
            final(self).blocked_tools@.drop_last() == old(self).blocked_tools@,
            final(self).blocked_tools@.last()@ == tool@,
            *final(self) == (SubAgentContext { blocked_tools: final(self).blocked_tools, ..*old(self) }),
    {
        let ghost before = self.blocked_tools@;
        self.blocked_tools.push(to_owned(tool));
        proof {
            assert(self.blocked_tools@.drop_last() =~= before);
        }
    }

    /// Limit the number of turns.
    pub fn set_max_turns(&mut self, max: u32)
        ensures
            *final(self) == (SubAgentContext { max_turns: Some(max), ..*old(self) }),
    {
        self.max_turns = Some(max);
    }

    /// Set the permission mode.
    pub fn set_permission_mode(&mut self, mode: PermissionMode)
        ensures
            *final(self) == (SubAgentContext { permission_mode: mode, ..*old(self) }),
    {
        self.permission_mode = mode;
    }

    /// Store a configuration value under a key.
    pub fn set_config(&mut self, key: &str, value: serde_json::Value)
        ensures
            lookup(final(self).config@, key@) == Some(value),
            forall|k: Seq<char>|
                k != key@ ==> lookup(final(self).config@, k) == lookup(old(self).config@, k),
            *final(self) == (SubAgentContext { config: final(self).config, ..*old(self) }),
    {
        put(&mut self.config, key, value);
    }

    /// A configuration value.
    pub fn get_config(&self, key: &str) -> (r: Option<&serde_json::Value>)
        ensures
            r matches Some(x) ==> lookup(self.config@, key@) == Some(*x),
            r is None ==> lookup(self.config@, key@) is None,
    {
        get_ref(&self.config, key)
    }

    /// Whether the sub-agent sees its parent's context.
    pub fn has_parent_access(&self) -> (r: bool)
        ensures
            r == (self.fork_mode != ContextForkMode::Isolated),
    {
        match self.fork_mode {
            ContextForkMode::Inherit | ContextForkMode::Fork => true,
            ContextForkMode::Isolated => false,
        }
    }

    /// A tool is allowed unless blocked; a non-empty allow list admits only
    /// its own tools.
    pub fn is_tool_allowed(&self, tool: &str) -> (r: bool)
        ensures
            r == (!views_of(self.blocked_tools@).contains(tool@) && (self.allowed_tools@.len() == 0
                || views_of(self.allowed_tools@).contains(tool@))),
    {
        if holds_string(&self.blocked_tools, tool) {
            return false;
        }
        if self.allowed_tools.len() == 0 {
            return true;
        }
        holds_string(&self.allowed_tools, tool)
    }

    /// Appends the lines that say how this sub-agent sees its parent.
    fn push_mode_lines(&self, s: &mut String)
        ensures
            final(s)@ == old(s)@ + mode_lines(*self, fork_stamp(*self)),
    {
        let ghost p1 = s@;
        match self.fork_mode {
            ContextForkMode::Isolated => {
                push_str(s, "- Isolated execution (no parent context access)\n");
            },
            ContextForkMode::Inherit => {
                push_str(s, "- Inheriting parent context (read-only)\n");
            },
            ContextForkMode::Fork => {
                push_str(s, "- Forked parent context (independent copy)\n");
                if let Some(forked) = &self.forked_context {
                    let mut stamp = String::new();
                    if let Some(t) = utc_millis_text(forked.forked_at) {
                        stamp = t;
                    }
                    assert(stamp@ == fork_stamp(*self));
                    push_str(s, "- Forked at: ");
                    push_str(s, stamp.as_str());
                    push_str(s, "\n");
                    let ghost q = s@;
                    if forked.working_files.len() > 0 {
                        push_str(s, "- Inherited ");
                        push_decimal(s, forked.working_files.len() as u64);
                        push_str(s, " working files\n");
                    }
                    let ghost q2 = s@;
                    if forked.loaded_skills.len() > 0 {
                        push_str(s, "- Inherited ");
                        push_decimal(s, forked.loaded_skills.len() as u64);
                        push_str(s, " skills\n");
                    }
                    proof {
                        assert(q2 =~= q + (if forked.working_files@.len() > 0 {
                            "- Inherited "@ + decimal(forked.working_files@.len())
                                + " working files\n"@
                        } else {
                            seq![]
                        }));
                    }
                }
            },
        }
        proof {
            assert(s@ =~= p1 + mode_lines(*self, fork_stamp(*self)));
        }
    }

    /// The instructions this sub-agent adds.
    pub fn instructions_text(&self) -> (r: String)
        ensures
            r@ == subagent_text(*self, fork_stamp(*self)),
    {
        let mut s = to_owned("## SubAgent: ");
        push_str(&mut s, self.agent_type.as_str());
        push_str(&mut s, "\n\n");
        let ghost p0 = s@;
        if !self.specific_instructions.as_str().is_empty() {
            push_str(&mut s, self.specific_instructions.as_str());
            push_str(&mut s, "\n\n");
        }
        push_str(&mut s, "### Context Mode\n\n");
        let ghost p1 = s@;
        self.push_mode_lines(&mut s);
        let ghost p2 = s@;
        if let Some(max) = self.max_turns {
            push_str(&mut s, "\n- Max turns: ");
            push_decimal(&mut s, max as u64);
            push_str(&mut s, "\n");
        }
        proof {
            assert(p1 =~= p0 + (if self.specific_instructions@.len() > 0 {
                self.specific_instructions@ + "\n\n"@
            } else {
                seq![]
            }) + "### Context Mode\n\n"@);
            assert(s@ =~= subagent_text(*self, fork_stamp(*self)));
        }
        s
    }
}

/// The strings of `a` that `b` also holds.
fn keep_listed(a: &Vec<String>, b: &Vec<String>) -> (r: Vec<String>)
    ensures
        r@ == kept_in(a@, b@),
{
    let mut out: Vec<String> = Vec::new();
    let mut i: usize = 0;
    proof {
        assert(a@.take(0) =~= Seq::<String>::empty());
    }
    while i < a.len()
        invariant
            0 <= i <= a@.len(),
            out@ == kept_in(a@.take(i as int), b@),
        decreases a.len() - i,
    {
        proof {
            assert(a@.take(i + 1).drop_last() =~= a@.take(i as int));
        }
        if holds_string(b, a[i].as_str()) {
            out.push(a[i].clone());
        }
        i = i + 1;
    }
    proof {
        assert(a@.take(a@.len() as int) =~= a@);
    }
    out
}

impl ContextLayer for SubAgentContext {
    open spec fn name_spec(&self) -> Seq<char> {
        "subagent"@
    }

    open spec fn priority_spec(&self) -> ContextPriority {
        ContextPriority::SubAgent
    }

    open spec fn applies(&self, before: ResolvedContext, after: ResolvedContext) -> bool {
        &&& after.loaded_skills@ == match self.forked_context {
            Some(f) => merged_skills(before.loaded_skills@, f.loaded_skills@),
            None => before.loaded_skills@,
        }
        &&& after.config_values@ == match self.forked_context {
            Some(f) => add_missing_keys(before.config_values@, f.custom_context@),
            None => before.config_values@,
        }
        &&& after.allowed_tools@ == if self.allowed_tools@.len() == 0 {
            before.allowed_tools@
        } else if before.allowed_tools@.len() == 0 {
            self.allowed_tools@
        } else {
            kept_in(before.allowed_tools@, self.allowed_tools@)
        }
        &&& after.blocked_tools@ == union_strings(
            before.blocked_tools@,
            self.blocked_tools@,
        )
        &&& after.permission_mode == self.permission_mode
        &&& after.task_instructions matches Some(x) && x@ == match before.task_instructions {
            Some(e) => e@ + "\n\n"@ + subagent_text(*self, fork_stamp(*self)),
            None => subagent_text(*self, fork_stamp(*self)),
        }
        &&& after == (ResolvedContext {
            loaded_skills: after.loaded_skills,
            config_values: after.config_values,
            allowed_tools: after.allowed_tools,
            blocked_tools: after.blocked_tools,
            permission_mode: after.permission_mode,
            task_instructions: after.task_instructions,
            ..before
        })
    }

    fn layer_name(&self) -> (r: &str)
        ensures
            r@ == "subagent"@,
    {
        "subagent"
    }

    fn priority(&self) -> (r: ContextPriority)
        ensures
            r == ContextPriority::SubAgent,
    {
        assert(self.priority_spec() == ContextPriority::SubAgent);
        ContextPriority::SubAgent
    }

    /// Bring in the forked skills and custom context (without overriding),
    /// narrow the allowed tools, add the blocked ones, set the permission mode
    /// and append the sub-agent's instructions.
    fn apply_to(&self, resolved: &mut ResolvedContext)
    {
        if let Some(forked) = &self.forked_context {
            let ghost start = resolved.loaded_skills@;
            let ghost mid0 = *resolved;
            let mut i: usize = 0;
            proof {
                assert(forked.loaded_skills@.take(0) =~= Seq::<LoadedSkill>::empty());
            }
            while i < forked.loaded_skills.len()
                invariant
                    0 <= i <= forked.loaded_skills@.len(),
                    resolved.loaded_skills@ == merged_skills(
                        start,
                        forked.loaded_skills@.take(i as int),
                    ),
                    *resolved == (ResolvedContext { loaded_skills: resolved.loaded_skills, ..mid0 }),
                decreases forked.loaded_skills.len() - i,
            {
                let skill = &forked.loaded_skills[i];
                proof {
                    assert(forked.loaded_skills@.take(i + 1).drop_last()
                        =~= forked.loaded_skills@.take(i as int));
                }
                if !skill_named(&resolved.loaded_skills, skill.name.as_str()) {
                    resolved.loaded_skills.push(copy_skill(skill));
                }
                i = i + 1;
            }
            proof {
                assert(forked.loaded_skills@.take(forked.loaded_skills@.len() as int)
                    =~= forked.loaded_skills@);
            }
            let ghost start2 = resolved.config_values@;
            let ghost mid1 = *resolved;
            let mut k: usize = 0;
            proof {
                assert(forked.custom_context@.take(0) =~= Seq::<(String, serde_json::Value)>::empty());
            }
            while k < forked.custom_context.len()
                invariant
                    0 <= k <= forked.custom_context@.len(),
                    resolved.config_values@ == add_missing_keys(
                        start2,
                        forked.custom_context@.take(k as int),
                    ),
                    *resolved == (ResolvedContext { config_values: resolved.config_values, ..mid1 }),
                decreases forked.custom_context.len() - k,
            {
                proof {
                    assert(forked.custom_context@.take(k + 1).drop_last()
                        =~= forked.custom_context@.take(k as int));
                }
                let key = &forked.custom_context[k].0;
                if find_key(&resolved.config_values, key.as_str()).is_none() {
                    resolved.config_values.push((key.clone(), forked.custom_context[k].1.clone()));
                }
                k = k + 1;
            }
            proof {
                assert(forked.custom_context@.take(forked.custom_context@.len() as int)
                    =~= forked.custom_context@);
            }
        }
        let ghost mid2 = *resolved;
        if self.allowed_tools.len() > 0 {
            if resolved.allowed_tools.len() == 0 {
                let mut copy: Vec<String> = Vec::new();
                let mut j: usize = 0;
                while j < self.allowed_tools.len()
                    invariant
                        0 <= j <= self.allowed_tools@.len(),
                        copy@ == self.allowed_tools@.take(j as int),
                    decreases self.allowed_tools.len() - j,
                {
                    copy.push(self.allowed_tools[j].clone());
                    proof {
                        assert(copy@ =~= self.allowed_tools@.take(j + 1));
                    }
                    j = j + 1;
                }
                proof {
                    assert(self.allowed_tools@.take(self.allowed_tools@.len() as int)
                        =~= self.allowed_tools@);
                }
                resolved.allowed_tools = copy;
            } else {
                resolved.allowed_tools = keep_listed(&resolved.allowed_tools, &self.allowed_tools);
            }
        }
        let ghost start3 = resolved.blocked_tools@;
        let ghost mid3 = *resolved;
        let mut b: usize = 0;
        proof {
            assert(self.blocked_tools@.take(0) =~= Seq::<String>::empty());
        }
        while b < self.blocked_tools.len()
            invariant
                0 <= b <= self.blocked_tools@.len(),
                resolved.blocked_tools@ == union_strings(start3, self.blocked_tools@.take(b as int)),
                *resolved == (ResolvedContext { blocked_tools: resolved.blocked_tools, ..mid3 }),
            decreases self.blocked_tools.len() - b,
        {
            proof {
                assert(self.blocked_tools@.take(b + 1).drop_last() =~= self.blocked_tools@.take(
                    b as int,
                ));
            }
            if !holds_string(&resolved.blocked_tools, self.blocked_tools[b].as_str()) {
                resolved.blocked_tools.push(self.blocked_tools[b].clone());
            }
            b = b + 1;
        }
        proof {
            assert(self.blocked_tools@.take(self.blocked_tools@.len() as int)
                =~= self.blocked_tools@);
        }
        resolved.permission_mode = self.permission_mode;
        let text = self.instructions_text();
        let combined = match &resolved.task_instructions {
            Some(existing) => {
                let mut c = existing.clone();
                push_str(&mut c, "\n\n");
                push_str(&mut c, text.as_str());
                c
            },
            None => text,
        };
        resolved.task_instructions = Some(combined);
    }
}

/// Builder for a sub-agent context.
pub struct SubAgentContextBuilder {
    context: SubAgentContext,
}

impl SubAgentContextBuilder {
    /// The sub-agent being built.
    pub closed spec fn subagent(&self) -> SubAgentContext {
        self.context
    }

    /// A builder for an isolated sub-agent of the given type.
    pub fn new(agent_type: &str) -> (r: Self)
        ensures
            plain_subagent(r.subagent()),
            r.subagent().agent_type@ == agent_type@,
    {
        SubAgentContextBuilder { context: SubAgentContext::new(agent_type) }
    }

    /// Set the id.
    pub fn id(self, id: &str) -> (r: Self)
        ensures
            r.subagent().subagent_id@ == id@,
            r.subagent() == (SubAgentContext { subagent_id: r.subagent().subagent_id, ..self.subagent() }),
    {
        let mut b = self;
        b.context.subagent_id = to_owned(id);
        b
    }

    /// Set the parent session.
    pub fn parent(self, session_id: uuid::Uuid) -> (r: Self)
        ensures
            r.subagent() == (SubAgentContext {
                parent_session_id: Some(session_id),
                ..self.subagent()
            }),
    {
        let mut b = self;
        b.context.parent_session_id = Some(session_id);
        b
    }

    /// Set the fork mode.
    pub fn fork_mode(self, mode: ContextForkMode) -> (r: Self)
        ensures
            r.subagent() == (SubAgentContext { fork_mode: mode, ..self.subagent() }),
    {
        let mut b = self;
        b.context.fork_mode = mode;
        b
    }

    /// Set the forked context (which sets fork mode).
    pub fn forked_context(self, forked: ForkedContext) -> (r: Self)
        ensures
            r.subagent() == (SubAgentContext {
                forked_context: Some(forked),
                fork_mode: ContextForkMode::Fork,
                ..self.subagent()
            }),
    {
        let mut b = self;
        b.context.forked_context = Some(forked);
        b.context.fork_mode = ContextForkMode::Fork;
        b
    }

    /// Set the instructions.
    pub fn instructions(self, instructions: &str) -> (r: Self)
        ensures
            r.subagent().specific_instructions@ == instructions@,
            r.subagent() == (SubAgentContext {
                specific_instructions: r.subagent().specific_instructions,
                ..self.subagent()
            }),
    {
        let mut b = self;
        b.context.specific_instructions = to_owned(instructions);
        b
    }

    /// Allow a tool.
    pub fn allow_tool(self, tool: &str) -> (r: Self)
        ensures
            r.subagent().allowed_tools@.len() == self.subagent().allowed_tools@.len() + 1,
            r.subagent().allowed_tools@.drop_last() == self.subagent().allowed_tools@,
            r.subagent().allowed_tools@.last()@ == tool@,
            r.subagent() == (SubAgentContext {
                allowed_tools: r.subagent().allowed_tools,
                ..self.subagent()
            }),
    {
        let mut b = self;
        b.context.allow_tool(tool);
        b
    }

    /// Block a tool.
    pub fn block_tool(self, tool: &str) -> (r: Self)
        ensures
            r.subagent().blocked_tools@.len() == self.subagent().blocked_tools@.len() + 1,
            r.subagent().blocked_tools@.drop_last() == self.subagent().blocked_tools@,
            r.subagent().blocked_tools@.last()@ == tool@,
            r.subagent() == (SubAgentContext {
                blocked_tools: r.subagent().blocked_tools,
                ..self.subagent()
            }),
    {
        let mut b = self;
        b.context.block_tool(tool);
        b
    }

    /// Set the permission mode.
    pub fn permission_mode(self, mode: PermissionMode) -> (r: Self)
        ensures
            r.subagent() == (SubAgentContext { permission_mode: mode, ..self.subagent() }),
    {
        let mut b = self;
        b.context.permission_mode = mode;
        b
    }

    /// Limit the number of turns.
    pub fn max_turns(self, max: u32) -> (r: Self)
        ensures
            r.subagent() == (SubAgentContext { max_turns: Some(max), ..self.subagent() }),
    {
        let mut b = self;
        b.context.max_turns = Some(max);
        b
    }

    /// Store a configuration value.
    pub fn config(self, key: &str, value: serde_json::Value) -> (r: Self)
        ensures
            lookup(r.subagent().config@, key@) == Some(value),
            forall|k: Seq<char>|
                k != key@ ==> lookup(r.subagent().config@, k) == lookup(self.subagent().config@, k),
            r.subagent() == (SubAgentContext { config: r.subagent().config, ..self.subagent() }),
    {
        let mut b = self;
        b.context.set_config(key, value);
        b
    }

    /// The sub-agent built.
    pub fn build(self) -> (r: SubAgentContext)
        ensures
            r == self.subagent(),
    {
        self.context
    }
}

} // verus!
