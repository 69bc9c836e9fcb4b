//! The task layer of the context hierarchy: the task's description, loaded
//! skills, working memory and constraints, and the instructions they become.
use vstd::prelude::*;

use crate::context::flags::random_uuid_text;

use crate::text::opt_view;

use crate::context::resolver::{ContextLayer, ContextPriority, LoadedSkill, ResolvedContext};
use crate::keyed::{get_ref, lookup, put};
use crate::text::{
    concat_all, decimal, join, push_decimal, push_joined, push_str, str_eq, to_owned, views_of,
};

verus! {

/// Task-level context.
#[derive(Debug, Clone)]
pub struct TaskContext {
    /// Task identifier.
    pub task_id: String,
    /// Parent session.
    pub session_id: Option<uuid::Uuid>,
    /// Task description or goal.
    pub description: String,
    /// Skills loaded for the task (full content).
    pub loaded_skills: Vec<LoadedSkill>,
    /// Working memory of the task.
    pub working_memory: WorkingMemory,
    /// Task constraints.
    pub constraints: TaskConstraints,
    /// Task-specific instructions (injected into the system prompt).
    pub instructions: Option<String>,
}

/// Working memory during task execution.  Tool states and results are kept by
/// name, the first entry with a name being the one that counts.
#[derive(Debug, Clone)]
pub struct WorkingMemory {
    /// Current file being worked on.
    pub current_file: Option<String>,
    /// Files discovered or read during the task.
    pub discovered_files: Vec<String>,
    /// Tool execution states.
    pub tool_states: Vec<(String, serde_json::Value)>,
    /// Discoveries made during the task.
    pub discoveries: Vec<Discovery>,
    /// Pending verifications.
    pub pending_verifications: Vec<Verification>,
    /// Intermediate results.
    pub results: Vec<(String, serde_json::Value)>,
}

impl Default for WorkingMemory {
    fn default() -> (r: Self)
        ensures
            r.current_file is None,
            r.discovered_files@.len() == 0,
            r.tool_states@.len() == 0,
            r.discoveries@.len() == 0,
            r.pending_verifications@.len() == 0,
            r.results@.len() == 0,
    {
        WorkingMemory {
            current_file: None,
            discovered_files: Vec::new(),
            tool_states: Vec::new(),
            discoveries: Vec::new(),
            pending_verifications: Vec::new(),
            results: Vec::new(),
        }
    }
}

/// A discovery made during task execution.  Its relevance (0 to 1) is kept as
/// the bit pattern of an `f32`.
#[derive(Debug, Clone)]
pub struct Discovery {
    /// What was discovered.
    pub content: String,
    /// Source of the discovery (file, tool, ...).
    pub source: String,
    /// Relevance score, as `f32::to_bits`.
    pub relevance_bits: u32,
}

/// A pending verification.
#[derive(Debug, Clone)]
pub struct Verification {
    /// What needs to be verified.
    pub target: String,
    /// Verification type.
    pub verification_type: VerificationType,
    /// Current status.
    pub status: VerificationStatus,
}

/// Type of verification.
#[derive(Debug, Clone, Copy, PartialEq, Eq, Structural)]
pub enum VerificationType {
    /// Compile check.
    Compile,
    /// Lint check.
    Lint,
    /// Unit test.
    UnitTest,
    /// Integration test.
    IntegrationTest,
    /// Manual verification.
    Manual,
}

/// Status of a verification.
#[derive(Debug, Clone, Copy, PartialEq, Eq, Structural)]
pub enum VerificationStatus {
    Pending,
    Running,
    Passed,
    Failed,
    Skipped,
}

impl Default for VerificationStatus {
    fn default() -> (r: Self)
        ensures
            r == VerificationStatus::Pending,
    {
        VerificationStatus::Pending
    }
}

/// Constraints for task execution.
#[derive(Debug, Clone)]
pub struct TaskConstraints {
    /// Maximum files that can be modified.
    pub max_files: Option<usize>,
    /// Allowed file patterns (glob).
    pub allowed_paths: Vec<String>,
    /// Blocked file patterns (glob).
    pub blocked_paths: Vec<String>,
    /// Allowed tools.
    pub allowed_tools: Vec<String>,
    /// Blocked tools.
    pub blocked_tools: Vec<String>,
    /// Time limit in seconds.
    pub time_limit_secs: Option<u64>,
    /// Maximum iterations or retries.
    pub max_iterations: Option<u32>,
}

impl Default for TaskConstraints {
    fn default() -> (r: Self)
        ensures
            r.max_files is None,
            r.allowed_paths@.len() == 0,
            r.blocked_paths@.len() == 0,
            r.allowed_tools@.len() == 0,
            r.blocked_tools@.len() == 0,
            r.time_limit_secs is None,
            r.max_iterations == Some(10u32),
    {
        TaskConstraints {
            max_files: None,
            allowed_paths: Vec::new(),
            blocked_paths: Vec::new(),
            allowed_tools: Vec::new(),
            blocked_tools: Vec::new(),
            time_limit_secs: None,
            max_iterations: Some(10),
        }
    }
}

/// A fresh task: a random id and everything else empty, with at most 10
/// iterations.
pub open spec fn fresh_task(t: TaskContext) -> bool {
    &&& t.session_id is None
    &&& t.loaded_skills@.len() == 0
    &&& t.working_memory.current_file is None
    &&& t.working_memory.discovered_files@.len() == 0
    &&& t.working_memory.tool_states@.len() == 0
    &&& t.working_memory.discoveries@.len() == 0
    &&& t.working_memory.pending_verifications@.len() == 0
    &&& t.working_memory.results@.len() == 0
    &&& t.constraints.max_files is None
    &&& t.constraints.allowed_paths@.len() == 0
    &&& t.constraints.blocked_paths@.len() == 0
    &&& t.constraints.allowed_tools@.len() == 0
    &&& t.constraints.blocked_tools@.len() == 0
    &&& t.constraints.time_limit_secs is None
    &&& t.constraints.max_iterations == Some(10u32)
    &&& t.instructions is None
}

impl Default for TaskContext {
    fn default() -> (r: Self)
        ensures
            fresh_task(r),
            r.description@.len() == 0,
    {
        TaskContext {
            task_id: random_uuid_text(),
            session_id: None,
            description: String::new(),
            loaded_skills: Vec::new(),
            working_memory: WorkingMemory::default(),
            constraints: TaskConstraints::default(),
            instructions: None,
        }
    }
}

/// How a verification type is printed.
pub open spec fn verification_type_name(t: VerificationType) -> Seq<char> {
    match t {
        VerificationType::Compile => "Compile"@,
        VerificationType::Lint => "Lint"@,
        VerificationType::UnitTest => "UnitTest"@,
        VerificationType::IntegrationTest => "IntegrationTest"@,
        VerificationType::Manual => "Manual"@,
    }
}

/// One line per discovery, with its source.
pub open spec fn discovery_lines(d: Seq<Discovery>) -> Seq<char>
    decreases d.len(),
{
    if d.len() == 0 {
        seq![]
    } else {
        discovery_lines(d.drop_last()) + "- "@ + d.last().content@ + " (from "@ + d.last().source@
            + ")\n"@
    }
}

/// One line per verification that is still pending.
pub open spec fn pending_lines(v: Seq<Verification>) -> Seq<char>
    decreases v.len(),
{
    if v.len() == 0 {
        seq![]
    } else {
        pending_lines(v.drop_last()) + if v.last().status == VerificationStatus::Pending {
            "- "@ + verification_type_name(v.last().verification_type) + ": "@ + v.last().target@
                + "\n"@
        } else {
            seq![]
        }
    }
}

/// Some verification is still pending.
pub open spec fn has_pending(v: Seq<Verification>) -> bool {
    exists|i: int| 0 <= i < v.len() && (#[trigger] v[i]).status == VerificationStatus::Pending
}

/// The working-memory summary of a task.
pub open spec fn memory_summary(w: WorkingMemory) -> Seq<char> {
    (match w.current_file {
        Some(f) => "Current file: "@ + f@ + "\n\n"@,
        None => seq![],
    }) + (if w.discoveries@.len() > 0 {
        "### Discoveries\n\n"@ + discovery_lines(w.discoveries@) + "\n"@
    } else {
        seq![]
    }) + (if has_pending(w.pending_verifications@) {
        "### Pending Verifications\n\n"@ + pending_lines(w.pending_verifications@)
    } else {
        seq![]
    })
}

/// The constraints block of the task instructions.
pub open spec fn constraints_block(c: TaskConstraints) -> Seq<char> {
    if c.max_files is Some || c.allowed_paths@.len() > 0 || c.blocked_paths@.len() > 0 {
        "\n## Constraints\n\n"@ + (match c.max_files {
            Some(m) => "- Max files to modify: "@ + decimal(m as nat) + "\n"@,
            None => seq![],
        }) + (if c.allowed_paths@.len() > 0 {
            "- Allowed paths: "@ + join(views_of(c.allowed_paths@), ", "@) + "\n"@
        } else {
            seq![]
        }) + (if c.blocked_paths@.len() > 0 {
            "- Blocked paths: "@ + join(views_of(c.blocked_paths@), ", "@) + "\n"@
        } else {
            seq![]
        })
    } else {
        seq![]
    }
}

/// The instructions a task adds to the prompt.
pub open spec fn task_text(t: TaskContext) -> Seq<char> {
    "## Task\n\n"@ + t.description@ + "\n\n"@ + (match t.instructions {
        Some(i) => "## Instructions\n\n"@ + i@ + "\n\n"@,
        None => seq![],
    }) + (if memory_summary(t.working_memory).len() > 0 {
        "## Working Memory\n\n"@ + memory_summary(t.working_memory)
    } else {
        seq![]
    }) + constraints_block(t.constraints)
}

/// Some skill of the list has the given name.
pub open spec fn has_skill_named(s: Seq<LoadedSkill>, name: Seq<char>) -> bool {
    exists|i: int| 0 <= i < s.len() && (#[trigger] s[i]).name@ == name
}

/// Skills added in order, each unless one of its name is already there.
pub open spec fn merged_skills(existing: Seq<LoadedSkill>, add: Seq<LoadedSkill>) -> Seq<LoadedSkill>
    decreases add.len(),
{
    if add.len() == 0 {
        existing
    } else {
        let m = merged_skills(existing, add.drop_last());
        if has_skill_named(m, add.last().name@) {
            m
        } else {
            m.push(add.last())
        }
    }
}

/// A copy of a skill.
pub(crate) fn copy_skill(s: &LoadedSkill) -> (r: LoadedSkill)
    ensures
        r == *s,
{
    LoadedSkill {
        name: s.name.clone(),
        content: s.content.clone(),
        requires_browser: s.requires_browser,
        automation_tab: s.automation_tab,
    }
}

/// A copy of a list of strings.
fn copy_strings(v: &Vec<String>) -> (r: Vec<String>)
    ensures
        r@ == v@,
{
    let mut out: Vec<String> = Vec::new();
    let mut i: usize = 0;
    while i < v.len()
        invariant
            0 <= i <= v@.len(),
            out@ == v@.take(i as int),
        decreases v.len() - i,
    {
        out.push(v[i].clone());
        proof {
            assert(out@ =~= v@.take(i + 1));
        }
        i = i + 1;
    }
    proof {
        assert(v@.take(v@.len() as int) =~= v@);
    }
    out
}

/// Whether some skill of the list has the given name.
pub(crate) fn skill_named(skills: &Vec<LoadedSkill>, name: &str) -> (r: bool)
    ensures
        r == has_skill_named(skills@, name@),
{
    let mut i: usize = 0;
    while i < skills.len()
        invariant
            0 <= i <= skills@.len(),
            forall|j: int| 0 <= j < i ==> (#[trigger] skills@[j]).name@ != name@,
        decreases skills.len() - i,
    {
        if str_eq(skills[i].name.as_str(), name) {
            return true;
        }
        i = i + 1;
    }
    false
}

/// Whether some string of the list has the given characters.
pub(crate) fn holds_string(v: &Vec<String>, s: &str) -> (r: bool)
    ensures
        r == views_of(v@).contains(s@),
{
    let mut i: usize = 0;
    while i < v.len()
        invariant
            0 <= i <= v@.len(),
            forall|j: int| 0 <= j < i ==> (#[trigger] v@[j])@ != s@,
        decreases v.len() - i,
    {
        if str_eq(v[i].as_str(), s) {
            proof {
                assert(views_of(v@)[i as int] == s@);
            }
            return true;
        }
        i = i + 1;
    }
    proof {
        if views_of(v@).contains(s@) {
            let j = choose|j: int| 0 <= j < views_of(v@).len() && views_of(v@)[j] == s@;
            assert(v@[j]@ == s@);
        }
    }
    false
}

impl TaskContext {
    /// A fresh task with the given description.
    pub fn new(description: &str) -> (r: Self)
        ensures
            fresh_task(r),
            r.description@ == description@,
    {
        let mut t = TaskContext::default();
        t.description = to_owned(description);
        t
    }

    /// A fresh task with the given id and description.
    pub fn with_id(task_id: &str, description: &str) -> (r: Self)
        ensures
            fresh_task(r),
            r.task_id@ == task_id@,
            r.description@ == description@,
    {
        let mut t = TaskContext::default();
        t.task_id = to_owned(task_id);
        t.description = to_owned(description);
        t
    }

    /// Set the parent session.
    pub fn set_session(&mut self, session_id: uuid::Uuid)
        ensures
            *final(self) == (TaskContext { session_id: Some(session_id), ..*old(self) }),
    {
        self.session_id = Some(session_id);
    }

    /// Load a skill, unless one of the same name is loaded.
    pub fn load_skill(&mut self, skill: LoadedSkill)
        ensures
            final(self).loaded_skills@ == if has_skill_named(
                old(self).loaded_skills@,
                skill.name@,
            ) {
                old(self).loaded_skills@
            } else {
                old(self).loaded_skills@.push(skill)
            },
            *final(self) == (TaskContext {
                loaded_skills: final(self).loaded_skills,
                ..*old(self)
            }),
    {
        if !skill_named(&self.loaded_skills, skill.name.as_str()) {
            self.loaded_skills.push(skill);
        }
    }

    /// Set the current file, and record it as discovered once.
    pub fn set_current_file(&mut self, path: &str)
        ensures
            final(self).working_memory.current_file matches Some(f) && f@ == path@,
            views_of(final(self).working_memory.discovered_files@) == if views_of(
                old(self).working_memory.discovered_files@,
            ).contains(path@) {
                views_of(old(self).working_memory.discovered_files@)
            } else {
                views_of(old(self).working_memory.discovered_files@).push(path@)
            },
            final(self).working_memory.tool_states == old(self).working_memory.tool_states,
            final(self).working_memory.discoveries == old(self).working_memory.discoveries,
            final(self).working_memory.pending_verifications
                == old(self).working_memory.pending_verifications,
            final(self).working_memory.results == old(self).working_memory.results,
            *final(self) == (TaskContext { working_memory: final(self).working_memory, ..*old(self) }),
    {
        self.working_memory.current_file = Some(to_owned(path));
        if !holds_string(&self.working_memory.discovered_files, path) {
            let ghost before = self.working_memory.discovered_files@;
            self.working_memory.discovered_files.push(to_owned(path));
            proof {
                assert(views_of(self.working_memory.discovered_files@) =~= views_of(before).push(
                    path@,
                ));
            }
        }
    }

    /// Record a discovery (relevance given as `f32::to_bits`).
    pub fn add_discovery(&mut self, content: &str, source: &str, relevance_bits: u32)
        ensures
            final(self).working_memory.discoveries@.len() == old(
                self,
            ).working_memory.discoveries@.len() + 1,
            final(self).working_memory.discoveries@.drop_last()
                == old(self).working_memory.discoveries@,
            final(self).working_memory.discoveries@.last().content@ == content@,
            final(self).working_memory.discoveries@.last().source@ == source@,
            final(self).working_memory.discoveries@.last().relevance_bits == relevance_bits,
            *final(self) == (TaskContext {
                working_memory: WorkingMemory {
                    discoveries: final(self).working_memory.discoveries,
                    ..old(self).working_memory
                },
                ..*old(self)
            }),
    {
        let ghost before = self.working_memory.discoveries@;
        self.working_memory.discoveries.push(
            Discovery { content: to_owned(content), source: to_owned(source), relevance_bits },
        );
        proof {
            assert(self.working_memory.discoveries@.drop_last() =~= before);
        }
    }

    /// Add a pending verification.
    pub fn add_verification(&mut self, target: &str, verification_type: VerificationType)
        ensures
            final(self).working_memory.pending_verifications@.len() == old(
                self,
            ).working_memory.pending_verifications@.len() + 1,
            final(self).working_memory.pending_verifications@.drop_last()
                == old(self).working_memory.pending_verifications@,
            final(self).working_memory.pending_verifications@.last().target@ == target@,
            final(self).working_memory.pending_verifications@.last().verification_type
                == verification_type,
            final(self).working_memory.pending_verifications@.last().status
                == VerificationStatus::Pending,
            *final(self) == (TaskContext {
                working_memory: WorkingMemory {
                    pending_verifications: final(self).working_memory.pending_verifications,
                    ..old(self).working_memory
                },
                ..*old(self)
            }),
    {
        let ghost before = self.working_memory.pending_verifications@;
        self.working_memory.pending_verifications.push(
            Verification {
                target: to_owned(target),
                verification_type,
                status: VerificationStatus::Pending,
            },
        );
        proof {
            assert(self.working_memory.pending_verifications@.drop_last() =~= before);
        }
    }

    /// Mark the first verification of `target` as passed or failed.
    pub fn complete_verification(&mut self, target: &str, passed: bool)
        ensures
            ({
                let old_v = old(self).working_memory.pending_verifications@;
                let new_v = final(self).working_memory.pending_verifications@;
                &&& new_v.len() == old_v.len()
                &&& forall|i: int|
                    0 <= i < old_v.len() ==> if (#[trigger] old_v[i]).target@ == target@
                        && forall|j: int| 0 <= j < i ==> (#[trigger] old_v[j]).target@ != target@ {
                        new_v[i] == (Verification {
                            status: if passed {
                                VerificationStatus::Passed
                            } else {
                                VerificationStatus::Failed
                            },
                            ..old_v[i]
                        })
                    } else {
                        new_v[i] == old_v[i]
                    }
            }),
            *final(self) == (TaskContext {
                working_memory: WorkingMemory {
                    pending_verifications: final(self).working_memory.pending_verifications,
                    ..old(self).working_memory
                },
                ..*old(self)
            }),
    {
        let ghost old_v = self.working_memory.pending_verifications@;
        let mut i: usize = 0;
        while i < self.working_memory.pending_verifications.len()
            invariant
                0 <= i <= old_v.len(),
                self.working_memory.pending_verifications@ == old_v,
                forall|j: int| 0 <= j < i ==> (#[trigger] old_v[j]).target@ != target@,
                *self == (TaskContext {
                    working_memory: WorkingMemory {
                        pending_verifications: self.working_memory.pending_verifications,
                        ..old(self).working_memory
                    },
                    ..*old(self)
                }),
                old_v == old(self).working_memory.pending_verifications@,
            decreases old_v.len() - i,
        {
            if str_eq(self.working_memory.pending_verifications[i].target.as_str(), target) {
                let v = &self.working_memory.pending_verifications[i];
                let updated = Verification {
                    target: v.target.clone(),
                    verification_type: v.verification_type,
                    status: if passed {
                        VerificationStatus::Passed
                    } else {
                        VerificationStatus::Failed
                    },
                };
                self.working_memory.pending_verifications.set(i, updated);
                return;
            }
            i = i + 1;
        }
    }

    /// Store a tool's state under its name.
    pub fn set_tool_state(&mut self, tool: &str, state: serde_json::Value)
        ensures
            lookup(final(self).working_memory.tool_states@, tool@) == Some(state),
            forall|k: Seq<char>|
                k != tool@ ==> lookup(final(self).working_memory.tool_states@, k) == lookup(
                    old(self).working_memory.tool_states@,
                    k,
                ),
            *final(self) == (TaskContext {
                working_memory: WorkingMemory {
                    tool_states: final(self).working_memory.tool_states,
                    ..old(self).working_memory
                },
                ..*old(self)
            }),
    {
        put(&mut self.working_memory.tool_states, tool, state);
    }

    /// A tool's stored state.
    pub fn get_tool_state(&self, tool: &str) -> (r: Option<&serde_json::Value>)
        ensures
            r matches Some(x) ==> lookup(self.working_memory.tool_states@, tool@) == Some(*x),
            r is None ==> lookup(self.working_memory.tool_states@, tool@) is None,
    {
        get_ref(&self.working_memory.tool_states, tool)
    }

    /// Store an intermediate result under a key.
    pub fn set_result(&mut self, key: &str, value: serde_json::Value)
        ensures
            lookup(final(self).working_memory.results@, key@) == Some(value),
            forall|k: Seq<char>|
                k != key@ ==> lookup(final(self).working_memory.results@, k) == lookup(
                    old(self).working_memory.results@,
                    k,
                ),
            *final(self) == (TaskContext {
                working_memory: WorkingMemory {
                    results: final(self).working_memory.results,
                    ..old(self).working_memory
                },
                ..*old(self)
            }),
    {
        put(&mut self.working_memory.results, key, value);
    }

    /// An intermediate result.
    pub fn get_result(&self, key: &str) -> (r: Option<&serde_json::Value>)
        ensures
            r matches Some(x) ==> lookup(self.working_memory.results@, key@) == Some(*x),
            r is None ==> lookup(self.working_memory.results@, key@) is None,
    {
        get_ref(&self.working_memory.results, key)
    }

    /// Set the task instructions.
    pub fn set_instructions(&mut self, instructions: &str)
        ensures
            final(self).instructions is Some,
            opt_view(final(self).instructions) == Some(instructions@),
            *final(self) == (TaskContext { instructions: final(self).instructions, ..*old(self) }),
    {
        self.instructions = Some(to_owned(instructions));
    }

    /// A tool is allowed unless blocked; a non-empty allow list admits only
    /// its own tools.
    pub fn is_tool_allowed(&self, tool: &str) -> (r: bool)
        ensures
            r == (!views_of(self.constraints.blocked_tools@).contains(tool@) && (
            self.constraints.allowed_tools@.len() == 0 || views_of(
                self.constraints.allowed_tools@,
            ).contains(tool@))),
    {
        if holds_string(&self.constraints.blocked_tools, tool) {
            return false;
        }
        if self.constraints.allowed_tools.len() == 0 {
            return true;
        }
        holds_string(&self.constraints.allowed_tools, tool)
    }

    /// The working-memory summary.
    pub fn generate_working_memory_summary(&self) -> (r: String)
        ensures
            r@ == memory_summary(self.working_memory),
    {
        let wm = &self.working_memory;
        let mut summary = String::new();
        if let Some(file) = &wm.current_file {
            push_str(&mut summary, "Current file: ");
            push_str(&mut summary, file.as_str());
            push_str(&mut summary, "\n\n");
        }
        proof {
            assert(summary@ =~= (match wm.current_file {
                Some(f) => "Current file: "@ + f@ + "\n\n"@,
                None => seq![],
            }));
        }
        let ghost p1 = summary@;
        if wm.discoveries.len() > 0 {
            push_str(&mut summary, "### Discoveries\n\n");
            push_discoveries(&mut summary, &wm.discoveries);
            push_str(&mut summary, "\n");
        }
        let ghost p2 = summary@;
        proof {
            assert(p2 =~= p1 + (if wm.discoveries@.len() > 0 {
                "### Discoveries\n\n"@ + discovery_lines(wm.discoveries@) + "\n"@
            } else {
                seq![]
            }));
        }
        let (lines, any) = pending_text(&wm.pending_verifications);
        if any {
            push_str(&mut summary, "### Pending Verifications\n\n");
            push_str(&mut summary, lines.as_str());
        }
        proof {
            assert(summary@ =~= p2 + (if has_pending(wm.pending_verifications@) {
                "### Pending Verifications\n\n"@ + pending_lines(wm.pending_verifications@)
            } else {
                seq![]
            }));
        }
        summary
    }

    /// The instructions a task adds to the prompt.
    pub fn task_instructions_text(&self) -> (r: String)
        ensures
            r@ == task_text(*self),
    {
        let mut s = to_owned("## Task\n\n");
        push_str(&mut s, self.description.as_str());
        push_str(&mut s, "\n\n");
        let ghost p0 = s@;
        if let Some(inst) = &self.instructions {
            push_str(&mut s, "## Instructions\n\n");
            push_str(&mut s, inst.as_str());
            push_str(&mut s, "\n\n");
        }
        proof {
            assert(s@ =~= p0 + (match self.instructions {
                Some(i) => "## Instructions\n\n"@ + i@ + "\n\n"@,
                None => seq![],
            }));
        }
        let ghost p1 = s@;
        let summary = self.generate_working_memory_summary();
        if !summary.as_str().is_empty() {
            push_str(&mut s, "## Working Memory\n\n");
            push_str(&mut s, summary.as_str());
        }
        proof {
            assert(s@ =~= p1 + (if memory_summary(self.working_memory).len() > 0 {
                "## Working Memory\n\n"@ + memory_summary(self.working_memory)
            } else {
                seq![]
            }));
        }
        push_constraints(&mut s, &self.constraints);
        s
    }
}

/// Append one line per discovery.
fn push_discoveries(out: &mut String, d: &Vec<Discovery>)
    ensures
        final(out)@ == old(out)@ + discovery_lines(d@),
{
    let ghost start = out@;
    let mut i: usize = 0;
    proof {
        assert(d@.take(0) =~= Seq::<Discovery>::empty());
        assert(out@ =~= start + discovery_lines(d@.take(0)));
    }
    while i < d.len()
        invariant
            0 <= i <= d@.len(),
            out@ == start + discovery_lines(d@.take(i as int)),
        decreases d.len() - i,
    {
        push_str(out, "- ");
        push_str(out, d[i].content.as_str());
        push_str(out, " (from ");
        push_str(out, d[i].source.as_str());
        push_str(out, ")\n");
        proof {
            assert(d@.take(i + 1).drop_last() =~= d@.take(i as int));
            assert(out@ =~= start + discovery_lines(d@.take(i + 1)));
        }
        i = i + 1;
    }
    proof {
        assert(d@.take(d@.len() as int) =~= d@);
    }
}

/// How a verification type is printed.
fn verification_type_text(t: VerificationType) -> (r: &'static str)
    ensures
        r@ == verification_type_name(t),
{
    match t {
        VerificationType::Compile => "Compile",
        VerificationType::Lint => "Lint",
        VerificationType::UnitTest => "UnitTest",
        VerificationType::IntegrationTest => "IntegrationTest",
        VerificationType::Manual => "Manual",
    }
}

/// The lines of the pending verifications, and whether there is one.
fn pending_text(v: &Vec<Verification>) -> (r: (String, bool))
    ensures
        r.0@ == pending_lines(v@),
        r.1 == has_pending(v@),
{
    let mut out = String::new();
    let mut any = false;
    let mut i: usize = 0;
    proof {
        assert(v@.take(0) =~= Seq::<Verification>::empty());
    }
    while i < v.len()
        invariant
            0 <= i <= v@.len(),
            out@ == pending_lines(v@.take(i as int)),
            any == exists|j: int| 0 <= j < i && (#[trigger] v@[j]).status == VerificationStatus::Pending,
        decreases v.len() - i,
    {
        let ghost before = out@;
        if v[i].status == VerificationStatus::Pending {
            push_str(&mut out, "- ");
            push_str(&mut out, verification_type_text(v[i].verification_type));
            push_str(&mut out, ": ");
            push_str(&mut out, v[i].target.as_str());
            push_str(&mut out, "\n");
            any = true;
        }
        proof {
            assert(v@.take(i + 1).drop_last() =~= v@.take(i as int));
            assert(out@ =~= pending_lines(v@.take(i + 1)));
        }
        i = i + 1;
    }
    proof {
        assert(v@.take(v@.len() as int) =~= v@);
    }
    (out, any)
}

/// Append the constraints block.
fn push_constraints(out: &mut String, c: &TaskConstraints)
    ensures
        final(out)@ == old(out)@ + constraints_block(*c),
{
    if c.max_files.is_some() || c.allowed_paths.len() > 0 || c.blocked_paths.len() > 0 {
        push_str(out, "\n## Constraints\n\n");
        let ghost p0 = out@;
        if let Some(max) = c.max_files {
            push_str(out, "- Max files to modify: ");
            push_decimal(out, max as u64);
            push_str(out, "\n");
        }
        let ghost p1 = out@;
        if c.allowed_paths.len() > 0 {
            push_str(out, "- Allowed paths: ");
            push_joined(out, &c.allowed_paths, ", ");
            push_str(out, "\n");
        }
        let ghost p2 = out@;
        if c.blocked_paths.len() > 0 {
            push_str(out, "- Blocked paths: ");
            push_joined(out, &c.blocked_paths, ", ");
            push_str(out, "\n");
        }
        proof {
            assert(p1 =~= p0 + (match c.max_files {
                Some(m) => "- Max files to modify: "@ + decimal(m as nat) + "\n"@,
                None => seq![],
            }));
            assert(p2 =~= p1 + (if c.allowed_paths@.len() > 0 {
                "- Allowed paths: "@ + join(views_of(c.allowed_paths@), ", "@) + "\n"@
            } else {
                seq![]
            }));
            assert(out@ =~= old(out)@ + constraints_block(*c));
        }
    } else {
        proof {
            assert(old(out)@ + constraints_block(*c) =~= old(out)@);
        }
    }
}

impl ContextLayer for TaskContext {
    open spec fn name_spec(&self) -> Seq<char> {
        "task"@
    }

    open spec fn priority_spec(&self) -> ContextPriority {
        ContextPriority::Task
    }

    open spec fn applies(&self, before: ResolvedContext, after: ResolvedContext) -> bool {
        &&& after.loaded_skills@ == merged_skills(
            before.loaded_skills@,
            self.loaded_skills@,
        )
        &&& after.allowed_tools@ == if self.constraints.allowed_tools@.len() > 0 {
            self.constraints.allowed_tools@
        } else {
            before.allowed_tools@
        }
        &&& after.blocked_tools@ == before.blocked_tools@
            + self.constraints.blocked_tools@
        &&& after.task_instructions matches Some(t) && t@ == match before.task_instructions {
            Some(e) => e@ + "\n\n"@ + task_text(*self),
            None => task_text(*self),
        }
        &&& after == (ResolvedContext {
            loaded_skills: after.loaded_skills,
            allowed_tools: after.allowed_tools,
            blocked_tools: after.blocked_tools,
            task_instructions: after.task_instructions,
            ..before
        })
    }

    fn layer_name(&self) -> (r: &str)
        ensures
            r@ == "task"@,
    {
        "task"
    }

    fn priority(&self) -> (r: ContextPriority)
        ensures
            r == ContextPriority::Task,
    {
        assert(self.priority_spec() == ContextPriority::Task);
        ContextPriority::Task
    }

    /// Add the task's skills (once per name), apply its tool constraints, and
    /// set the task instructions or append them to those already there.
    fn apply_to(&self, resolved: &mut ResolvedContext)
    {
        let ghost start = resolved.loaded_skills@;
        let mut i: usize = 0;
        proof {
            assert(self.loaded_skills@.take(0) =~= Seq::<LoadedSkill>::empty());
        }
        while i < self.loaded_skills.len()
            invariant
                0 <= i <= self.loaded_skills@.len(),
                resolved.loaded_skills@ == merged_skills(start, self.loaded_skills@.take(i as int)),
                *resolved == (ResolvedContext {
                    loaded_skills: resolved.loaded_skills,
                    ..*old(resolved)
                }),
                start == old(resolved).loaded_skills@,
            decreases self.loaded_skills.len() - i,
        {
            let skill = &self.loaded_skills[i];
            proof {
                assert(self.loaded_skills@.take(i + 1).drop_last() =~= self.loaded_skills@.take(
                    i as int,
                ));
            }
            if !skill_named(&resolved.loaded_skills, skill.name.as_str()) {
                resolved.loaded_skills.push(copy_skill(skill));
            }
            i = i + 1;
        }
        proof {
            assert(self.loaded_skills@.take(self.loaded_skills@.len() as int)
                =~= self.loaded_skills@);
        }
        if self.constraints.allowed_tools.len() > 0 {
            resolved.allowed_tools = copy_strings(&self.constraints.allowed_tools);
        }
        let mut k: usize = 0;
        let ghost blocked0 = resolved.blocked_tools@;
        let ghost mid = *resolved;
        while k < self.constraints.blocked_tools.len()
            invariant
                0 <= k <= self.constraints.blocked_tools@.len(),
                resolved.blocked_tools@ == blocked0 + self.constraints.blocked_tools@.take(k as int),
                *resolved == (ResolvedContext { blocked_tools: resolved.blocked_tools, ..mid }),
            decreases self.constraints.blocked_tools.len() - k,
        {
            resolved.blocked_tools.push(self.constraints.blocked_tools[k].clone());
            proof {
                assert(resolved.blocked_tools@ =~= blocked0 + self.constraints.blocked_tools@.take(
                    k + 1,
                ));
            }
            k = k + 1;
        }
        proof {
            assert(self.constraints.blocked_tools@.take(self.constraints.blocked_tools@.len() as int)
                =~= self.constraints.blocked_tools@);
        }
        let text = self.task_instructions_text();
        let combined = match &resolved.task_instructions {
            Some(existing) => {
                let mut c = existing.clone();
                push_str(&mut c, "\n\n");
                push_str(&mut c, text.as_str());
                c
            },
            None => text,
        };
        resolved.task_instructions = Some(combined);
    }
}

/// Builder for a task context.
pub struct TaskContextBuilder {
    context: TaskContext,
}

impl TaskContextBuilder {
    /// The task being built.
    pub closed spec fn task(&self) -> TaskContext {
        self.context
    }

    /// A builder starting from a fresh task.
    pub fn new() -> (r: Self)
        ensures
            fresh_task(r.task()),
            r.task().description@.len() == 0,
    {
        TaskContextBuilder { context: TaskContext::default() }
    }

    /// Set the task id.
    pub fn id(self, id: &str) -> (r: Self)
        ensures
            r.task().task_id@ == id@,
            r.task() == (TaskContext { task_id: r.task().task_id, ..self.task() }),
    {
        let mut b = self;
        b.context.task_id = to_owned(id);
        b
    }

    /// Set the description.
    pub fn description(self, desc: &str) -> (r: Self)
        ensures
            r.task().description@ == desc@,
            r.task() == (TaskContext { description: r.task().description, ..self.task() }),
    {
        let mut b = self;
        b.context.description = to_owned(desc);
        b
    }

    /// Set the parent session.
    pub fn session(self, session_id: uuid::Uuid) -> (r: Self)
        ensures
            r.task() == (TaskContext { session_id: Some(session_id), ..self.task() }),
    {
        let mut b = self;
        b.context.session_id = Some(session_id);
        b
    }

    /// Add a skill.
    pub fn skill(self, skill: LoadedSkill) -> (r: Self)
        ensures
            r.task().loaded_skills@ == self.task().loaded_skills@.push(skill),
            r.task() == (TaskContext { loaded_skills: r.task().loaded_skills, ..self.task() }),
    {
        let mut b = self;
        b.context.loaded_skills.push(skill);
        b
    }

    /// Set the instructions.
    pub fn instructions(self, inst: &str) -> (r: Self)
        ensures
            r.task().instructions is Some,
            opt_view(r.task().instructions) == Some(inst@),
            r.task() == (TaskContext { instructions: r.task().instructions, ..self.task() }),
    {
        let mut b = self;
        b.context.instructions = Some(to_owned(inst));
        b
    }

    /// Limit the number of files.
    pub fn max_files(self, max: usize) -> (r: Self)
        ensures
            r.task() == (TaskContext {
                constraints: TaskConstraints { max_files: Some(max), ..self.task().constraints },
                ..self.task()
            }),
    {
        let mut b = self;
        b.context.constraints.max_files = Some(max);
        b
    }

    /// Allow a path pattern.
    pub fn allow_path(self, path: &str) -> (r: Self)
        ensures
            r.task().constraints.allowed_paths@.len() == self.task().constraints.allowed_paths@.len()
                + 1,
            r.task().constraints.allowed_paths@.drop_last() == self.task().constraints.allowed_paths@,
            r.task().constraints.allowed_paths@.last()@ == path@,
            r.task() == (TaskContext {
                constraints: TaskConstraints {
                    allowed_paths: r.task().constraints.allowed_paths,
                    ..self.task().constraints
                },
                ..self.task()
            }),
    {
        let mut b = self;
        let ghost before = b.context.constraints.allowed_paths@;
        b.context.constraints.allowed_paths.push(to_owned(path));
        proof {
            assert(b.context.constraints.allowed_paths@.drop_last() =~= before);
        }
        b
    }

    /// Block a path pattern.
    pub fn block_path(self, path: &str) -> (r: Self)
        ensures
            r.task().constraints.blocked_paths@.len() == self.task().constraints.blocked_paths@.len()
                + 1,
            r.task().constraints.blocked_paths@.drop_last() == self.task().constraints.blocked_paths@,
            r.task().constraints.blocked_paths@.last()@ == path@,
            r.task() == (TaskContext {
                constraints: TaskConstraints {
                    blocked_paths: r.task().constraints.blocked_paths,
                    ..self.task().constraints
                },
                ..self.task()
            }),
    {
        let mut b = self;
        let ghost before = b.context.constraints.blocked_paths@;
        b.context.constraints.blocked_paths.push(to_owned(path));
        proof {
            assert(b.context.constraints.blocked_paths@.drop_last() =~= before);
        }
        b
    }

    /// Allow a tool.
    pub fn allow_tool(self, tool: &str) -> (r: Self)
        ensures
            r.task().constraints.allowed_tools@.len() == self.task().constraints.allowed_tools@.len()
                + 1,
            r.task().constraints.allowed_tools@.drop_last() == self.task().constraints.allowed_tools@,
            r.task().constraints.allowed_tools@.last()@ == tool@,
            r.task() == (TaskContext {
                constraints: TaskConstraints {
                    allowed_tools: r.task().constraints.allowed_tools,
                    ..self.task().constraints
                },
                ..self.task()
            }),
    {
        let mut b = self;
        let ghost before = b.context.constraints.allowed_tools@;
        b.context.constraints.allowed_tools.push(to_owned(tool));
        proof {
            assert(b.context.constraints.allowed_tools@.drop_last() =~= before);
        }
        b
    }

    /// Block a tool.
    pub fn block_tool(self, tool: &str) -> (r: Self)
        ensures
            r.task().constraints.blocked_tools@.len() == self.task().constraints.blocked_tools@.len()
                + 1,
            r.task().constraints.blocked_tools@.drop_last() == self.task().constraints.blocked_tools@,
            r.task().constraints.blocked_tools@.last()@ == tool@,
            r.task() == (TaskContext {
                constraints: TaskConstraints {
                    blocked_tools: r.task().constraints.blocked_tools,
                    ..self.task().constraints
                },
                ..self.task()
            }),
    {
        let mut b = self;
        let ghost before = b.context.constraints.blocked_tools@;
        b.context.constraints.blocked_tools.push(to_owned(tool));
        proof {
            assert(b.context.constraints.blocked_tools@.drop_last() =~= before);
        }
        b
    }

    /// Limit the number of iterations.
    pub fn max_iterations(self, max: u32) -> (r: Self)
        ensures
            r.task() == (TaskContext {
                constraints: TaskConstraints {
                    max_iterations: Some(max),
                    ..self.task().constraints
                },
                ..self.task()
            }),
    {
        let mut b = self;
        b.context.constraints.max_iterations = Some(max);
        b
    }

    /// The task built.
    pub fn build(self) -> (r: TaskContext)
        ensures
            r == self.task(),
    {
        self.context
    }
}

impl Default for TaskContextBuilder {
    fn default() -> (r: Self)
        ensures
            fresh_task(r.task()),
            r.task().description@.len() == 0,
    {
        Self::new()
    }
}

} // verus!
