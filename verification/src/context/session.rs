//! The session layer of the context hierarchy: files being worked on, tool
//! usage, loaded skills and custom context, summarised into the prompt.
use vstd::prelude::*;

use crate::context::flags::random_uuid;

use crate::context::resolver::{ContextLayer, ContextPriority, LoadedSkill, ResolvedContext};
use crate::context::task::{copy_skill, has_skill_named, merged_skills, skill_named};
use crate::keyed::{find_key, get_ref, has_key, is_first_key, lemma_first_key, lookup, put};
use crate::text::{concat_all, decimal, push_decimal, push_str, to_owned};

verus! {

/// Session-level context.  `M` is the type of the conversation's messages.
/// Working files, tool states and custom context are kept by name, in the
/// order in which the names first appeared.
#[derive(Debug, Clone)]
pub struct SessionContext<M> {
    /// Session identifier.
    pub session_id: uuid::Uuid,
    /// Conversation, if linked to one.
    pub conversation_id: Option<uuid::Uuid>,
    /// User owning this session.
    pub user_id: Option<uuid::Uuid>,
    /// Session title or description.
    pub title: Option<String>,
    /// Conversation history.
    pub messages: Vec<M>,
    /// Working files currently being edited, by path.
    pub working_files: Vec<(String, FileState)>,
    /// Tool execution states, by tool name.
    pub tool_states: Vec<(String, ToolState)>,
    /// Skills loaded in this session.
    pub loaded_skills: Vec<LoadedSkill>,
    /// Session-specific custom context, by key.
    pub custom_context: Vec<(String, serde_json::Value)>,
}

/// State of a file being worked on.
#[derive(Debug, Clone)]
pub struct FileState {
    /// File path.
    pub path: String,
    /// Whether the file has been modified.
    pub modified: bool,
    /// Last read content hash (for change detection).
    pub content_hash: Option<String>,
    /// Pending changes not yet written.
    pub pending_changes: Option<String>,
}

/// State of a tool during the session.
#[derive(Debug, Clone)]
pub struct ToolState {
    /// Tool name.
    pub name: String,
    /// Number of calls in the session.
    pub call_count: u32,
    /// Summary of the last result.
    pub last_result: Option<String>,
    /// Custom state data, by key.
    pub state_data: Vec<(String, serde_json::Value)>,
}

/// A session with nothing in it yet.
pub open spec fn empty_session<M>(s: SessionContext<M>) -> bool {
    &&& s.conversation_id is None
    &&& s.user_id is None
    &&& s.title is None
    &&& s.messages@.len() == 0
    &&& s.working_files@.len() == 0
    &&& s.tool_states@.len() == 0
    &&& s.loaded_skills@.len() == 0
    &&& s.custom_context@.len() == 0
}

impl<M> Default for SessionContext<M> {
    fn default() -> (r: Self)
        ensures
            empty_session(r),
    {
        SessionContext {
            session_id: random_uuid(),
            conversation_id: None,
            user_id: None,
            title: None,
            messages: Vec::new(),
            working_files: Vec::new(),
            tool_states: Vec::new(),
            loaded_skills: Vec::new(),
            custom_context: Vec::new(),
        }
    }
}

/// One line per working file, with its modification mark.
pub open spec fn file_lines(f: Seq<(String, FileState)>) -> Seq<char>
    decreases f.len(),
{
    if f.len() == 0 {
        seq![]
    } else {
        file_lines(f.drop_last()) + "- "@ + f.last().0@ + " "@ + (if f.last().1.modified {
            "(modified)"@
        } else {
            ""@
        }) + "\n"@
    }
}

/// One line per loaded skill.
pub open spec fn skill_lines(s: Seq<LoadedSkill>) -> Seq<char>
    decreases s.len(),
{
    if s.len() == 0 {
        seq![]
    } else {
        skill_lines(s.drop_last()) + "- "@ + s.last().name@ + "\n"@
    }
}

/// Number of tools that have been called.
pub open spec fn called_count(t: Seq<(String, ToolState)>) -> nat
    decreases t.len(),
{
    if t.len() == 0 {
        0
    } else {
        called_count(t.drop_last()) + if t.last().1.call_count > 0 {
            1nat
        } else {
            0nat
        }
    }
}

/// One line for each of the first five tools that have been called.
pub open spec fn recent_tool_lines(t: Seq<(String, ToolState)>) -> Seq<char>
    decreases t.len(),
{
    if t.len() == 0 {
        seq![]
    } else {
        recent_tool_lines(t.drop_last()) + if t.last().1.call_count > 0 && called_count(
            t.drop_last(),
        ) < 5 {
            "- "@ + t.last().1.name@ + " ("@ + decimal(t.last().1.call_count as nat) + "x)\n"@
        } else {
            seq![]
        }
    }
}

/// The session summary put into the prompt.
pub open spec fn session_summary<M>(s: SessionContext<M>) -> Seq<char> {
    (if s.working_files@.len() > 0 {
        "### Working Files\n\n"@ + file_lines(s.working_files@) + "\n"@
    } else {
        seq![]
    }) + (if s.loaded_skills@.len() > 0 {
        "### Loaded Skills\n\n"@ + skill_lines(s.loaded_skills@) + "\n"@
    } else {
        seq![]
    }) + (if called_count(s.tool_states@) > 0 {
        "### Recent Tools\n\n"@ + recent_tool_lines(s.tool_states@)
    } else {
        seq![]
    })
}

impl<M> SessionContext<M> {
    /// An empty session with the given id.
    pub fn new(session_id: uuid::Uuid) -> (r: Self)
        ensures
            r.session_id == session_id,
            empty_session(r),
    {
        let mut s = Self::default();
        s.session_id = session_id;
        s
    }

    /// An empty session of a user.
    pub fn for_user(session_id: uuid::Uuid, user_id: uuid::Uuid) -> (r: Self)
        ensures
            r.session_id == session_id,
            r.user_id == Some(user_id),
            empty_session(SessionContext { user_id: None, ..r }),
    {
        let mut s = Self::default();
        s.session_id = session_id;
        s.user_id = Some(user_id);
        s
    }

    /// Append a message to the conversation.
    pub fn add_message(&mut self, message: M)
        ensures
            final(self).messages@ == old(self).messages@.push(message),
            *final(self) == (SessionContext { messages: final(self).messages, ..*old(self) }),
    {
        self.messages.push(message);
    }

    /// Number of messages.
    pub fn message_count(&self) -> (r: usize)
        ensures
            r == self.messages@.len(),
    {
        self.messages.len()
    }

    /// Start tracking a file as unmodified (forgetting any earlier state).
    pub fn track_file(&mut self, path: &str)
        ensures
            lookup(final(self).working_files@, path@) matches Some(st) && st.path@ == path@
                && !st.modified && st.content_hash is None && st.pending_changes is None,
            forall|k: Seq<char>|
                k != path@ ==> lookup(final(self).working_files@, k) == lookup(
                    old(self).working_files@,
                    k,
                ),
            *final(self) == (SessionContext {
                working_files: final(self).working_files,
                ..*old(self)
            }),
    {
        let st = FileState {
            path: to_owned(path),
            modified: false,
            content_hash: None,
            pending_changes: None,
        };
        put(&mut self.working_files, path, st);
    }

    /// Mark a tracked file as modified (untracked files are ignored).
    pub fn mark_file_modified(&mut self, path: &str)
        ensures
            match lookup(old(self).working_files@, path@) {
                Some(st) => lookup(final(self).working_files@, path@) == Some(
                    FileState { modified: true, ..st },
                ),
                None => final(self).working_files@ == old(self).working_files@,
            },
            forall|k: Seq<char>|
                k != path@ ==> lookup(final(self).working_files@, k) == lookup(
                    old(self).working_files@,
                    k,
                ),
            *final(self) == (SessionContext {
                working_files: final(self).working_files,
                ..*old(self)
            }),
    {
        if let Some(i) = find_key(&self.working_files, path) {
            proof {
                lemma_first_key(self.working_files@, path@, i as int);
            }
            let st = FileState {
                path: self.working_files[i].1.path.clone(),
                modified: true,
                content_hash: self.working_files[i].1.content_hash.clone(),
                pending_changes: self.working_files[i].1.pending_changes.clone(),
            };
            put(&mut self.working_files, path, st);
        }
    }

    /// Count a call of a tool and keep its result summary.
    pub fn record_tool_call(&mut self, tool_name: &str, result_summary: Option<String>)
        requires
            lookup(old(self).tool_states@, tool_name@) matches Some(t) ==> t.call_count < u32::MAX,
        ensures
            lookup(final(self).tool_states@, tool_name@) matches Some(t) && t.call_count == (
            match lookup(old(self).tool_states@, tool_name@) {
                Some(o) => o.call_count + 1,
                None => 1,
            }) && t.last_result == result_summary && match lookup(
                old(self).tool_states@,
                tool_name@,
            ) {
                Some(o) => t.name == o.name && t.state_data@ == o.state_data@,
                None => t.name@ == tool_name@ && t.state_data@.len() == 0,
            },
            forall|k: Seq<char>|
                k != tool_name@ ==> lookup(final(self).tool_states@, k) == lookup(
                    old(self).tool_states@,
                    k,
                ),
            *final(self) == (SessionContext { tool_states: final(self).tool_states, ..*old(self) }),
    {
        let updated = match find_key(&self.tool_states, tool_name) {
            Some(i) => {
                proof {
                    lemma_first_key(self.tool_states@, tool_name@, i as int);
                }
                let old_state = &self.tool_states[i].1;
                ToolState {
                    name: old_state.name.clone(),
                    call_count: old_state.call_count + 1,
                    last_result: result_summary,
                    state_data: copy_entries(&old_state.state_data),
                }
            },
            None => ToolState {
                name: to_owned(tool_name),
                call_count: 1,
                last_result: result_summary,
                state_data: Vec::new(),
            },
        };
        put(&mut self.tool_states, tool_name, updated);
    }

    /// Load a skill, unless one of the same name is loaded.
    pub fn load_skill(&mut self, skill: LoadedSkill)
        ensures
            final(self).loaded_skills@ == if has_skill_named(
                old(self).loaded_skills@,
                skill.name@,
            ) {
                old(self).loaded_skills@
            } else {
                old(self).loaded_skills@.push(skill)
            },
            *final(self) == (SessionContext {
                loaded_skills: final(self).loaded_skills,
                ..*old(self)
            }),
    {
        if !skill_named(&self.loaded_skills, skill.name.as_str()) {
            self.loaded_skills.push(skill);
        }
    }

    /// Whether a skill of the given name is loaded.
    pub fn is_skill_loaded(&self, name: &str) -> (r: bool)
        ensures
            r == has_skill_named(self.loaded_skills@, name@),
    {
        skill_named(&self.loaded_skills, name)
    }

    /// The names of the loaded skills, in loading order.
    pub fn loaded_skill_names(&self) -> (r: Vec<&str>)
        ensures
            r@.len() == self.loaded_skills@.len(),
            forall|i: int| 0 <= i < r@.len() ==> (#[trigger] r@[i])@ == self.loaded_skills@[i].name@,
    {
        let mut out: Vec<&str> = Vec::new();
        let mut i: usize = 0;
        while i < self.loaded_skills.len()
            invariant
                0 <= i <= self.loaded_skills@.len(),
                out@.len() == i,
                forall|j: int| 0 <= j < i ==> (#[trigger] out@[j])@ == self.loaded_skills@[j].name@,
            decreases self.loaded_skills.len() - i,
        {
            out.push(self.loaded_skills[i].name.as_str());
            i = i + 1;
        }
        out
    }

    /// Store a custom context value under a key.
    pub fn set_context(&mut self, key: &str, value: serde_json::Value)
        ensures
            lookup(final(self).custom_context@, key@) == Some(value),
            forall|k: Seq<char>|
                k != key@ ==> lookup(final(self).custom_context@, k) == lookup(
                    old(self).custom_context@,
                    k,
                ),
            *final(self) == (SessionContext {
                custom_context: final(self).custom_context,
                ..*old(self)
            }),
    {
        put(&mut self.custom_context, key, value);
    }

    /// A custom context value.
    pub fn get_context(&self, key: &str) -> (r: Option<&serde_json::Value>)
        ensures
            r matches Some(x) ==> lookup(self.custom_context@, key@) == Some(*x),
            r is None ==> lookup(self.custom_context@, key@) is None,
    {
        get_ref(&self.custom_context, key)
    }

    /// The state of a tracked file.
    pub fn working_file(&self, path: &str) -> (r: Option<&FileState>)
        ensures
            r matches Some(x) ==> lookup(self.working_files@, path@) == Some(*x),
            r is None ==> lookup(self.working_files@, path@) is None,
    {
        get_ref(&self.working_files, path)
    }

    /// The state of a tool.
    pub fn tool_state(&self, name: &str) -> (r: Option<&ToolState>)
        ensures
            r matches Some(x) ==> lookup(self.tool_states@, name@) == Some(*x),
            r is None ==> lookup(self.tool_states@, name@) is None,
    {
        get_ref(&self.tool_states, name)
    }

    /// The session summary: working files, loaded skills and up to five of
    /// the tools that have been called.
    pub fn generate_summary(&self) -> (r: String)
        ensures
            r@ == session_summary(*self),
    {
        let mut summary = String::new();
        if self.working_files.len() > 0 {
            push_str(&mut summary, "### Working Files\n\n");
            push_file_lines(&mut summary, &self.working_files);
            push_str(&mut summary, "\n");
        }
        let ghost p1 = summary@;
        proof {
            assert(p1 =~= (if self.working_files@.len() > 0 {
                "### Working Files\n\n"@ + file_lines(self.working_files@) + "\n"@
            } else {
                seq![]
            }));
        }
        if self.loaded_skills.len() > 0 {
            push_str(&mut summary, "### Loaded Skills\n\n");
            push_skill_lines(&mut summary, &self.loaded_skills);
            push_str(&mut summary, "\n");
        }
        let ghost p2 = summary@;
        proof {
            assert(p2 =~= p1 + (if self.loaded_skills@.len() > 0 {
                "### Loaded Skills\n\n"@ + skill_lines(self.loaded_skills@) + "\n"@
            } else {
                seq![]
            }));
        }
        let (lines, n) = recent_tools_text(&self.tool_states);
        if n > 0 {
            push_str(&mut summary, "### Recent Tools\n\n");
            push_str(&mut summary, lines.as_str());
        }
        proof {
            assert(summary@ =~= p2 + (if called_count(self.tool_states@) > 0 {
                "### Recent Tools\n\n"@ + recent_tool_lines(self.tool_states@)
            } else {
                seq![]
            }));
        }
        summary
    }
}

/// A copy of a keyed list of JSON values.
pub(crate) fn copy_entries(v: &Vec<(String, serde_json::Value)>) -> (r: Vec<(String, serde_json::Value)>)
    ensures
        r@ == v@,
{
    let mut out: Vec<(String, serde_json::Value)> = Vec::new();
    let mut i: usize = 0;
    while i < v.len()
        invariant
            0 <= i <= v@.len(),
            out@ == v@.take(i as int),
        decreases v.len() - i,
    {
        out.push((v[i].0.clone(), v[i].1.clone()));
        proof {
            assert(out@ =~= v@.take(i + 1));
        }
        i = i + 1;
    }
    proof {
        assert(v@.take(v@.len() as int) =~= v@);
    }
    out
}

/// Append one line per working file.
fn push_file_lines(out: &mut String, f: &Vec<(String, FileState)>)
    ensures
        final(out)@ == old(out)@ + file_lines(f@),
{
    let ghost start = out@;
    let mut i: usize = 0;
    proof {
        assert(f@.take(0) =~= Seq::<(String, FileState)>::empty());
        assert(out@ =~= start + file_lines(f@.take(0)));
    }
    while i < f.len()
        invariant
            0 <= i <= f@.len(),
            out@ == start + file_lines(f@.take(i as int)),
        decreases f.len() - i,
    {
        push_str(out, "- ");
        push_str(out, f[i].0.as_str());
        push_str(out, " ");
        if f[i].1.modified {
            push_str(out, "(modified)");
        } else {
            push_str(out, "");
        }
        push_str(out, "\n");
        proof {
            assert(f@.take(i + 1).drop_last() =~= f@.take(i as int));
            assert(out@ =~= start + file_lines(f@.take(i + 1)));
        }
        i = i + 1;
    }
    proof {
        assert(f@.take(f@.len() as int) =~= f@);
    }
}

/// Append one line per skill.
fn push_skill_lines(out: &mut String, s: &Vec<LoadedSkill>)
    ensures
        final(out)@ == old(out)@ + skill_lines(s@),
{
    let ghost start = out@;
    let mut i: usize = 0;
    proof {
        assert(s@.take(0) =~= Seq::<LoadedSkill>::empty());
        assert(out@ =~= start + skill_lines(s@.take(0)));
    }
    while i < s.len()
        invariant
            0 <= i <= s@.len(),
            out@ == start + skill_lines(s@.take(i as int)),
        decreases s.len() - i,
    {
        push_str(out, "- ");
        push_str(out, s[i].name.as_str());
        push_str(out, "\n");
        proof {
            assert(s@.take(i + 1).drop_last() =~= s@.take(i as int));
            assert(out@ =~= start + skill_lines(s@.take(i + 1)));
        }
        i = i + 1;
    }
    proof {
        assert(s@.take(s@.len() as int) =~= s@);
    }
}

/// The recent-tool lines and the number of tools that have been called.
fn recent_tools_text(t: &Vec<(String, ToolState)>) -> (r: (String, usize))
    ensures
        r.0@ == recent_tool_lines(t@),
        r.1 == called_count(t@),
{
    let mut out = String::new();
    let mut n: usize = 0;
    let mut i: usize = 0;
    proof {
        assert(t@.take(0) =~= Seq::<(String, ToolState)>::empty());
    }
    while i < t.len()
        invariant
            0 <= i <= t@.len(),
            out@ == recent_tool_lines(t@.take(i as int)),
            n == called_count(t@.take(i as int)),
            n <= i,
        decreases t.len() - i,
    {
        proof {
            assert(t@.take(i + 1).drop_last() =~= t@.take(i as int));
        }
        if t[i].1.call_count > 0 {
            if n < 5 {
                push_str(&mut out, "- ");
                push_str(&mut out, t[i].1.name.as_str());
                push_str(&mut out, " (");
                push_decimal(&mut out, t[i].1.call_count as u64);
                push_str(&mut out, "x)\n");
            }
            n = n + 1;
        }
        proof {
            assert(out@ =~= recent_tool_lines(t@.take(i + 1)));
        }
        i = i + 1;
    }
    proof {
        assert(t@.take(t@.len() as int) =~= t@);
    }
    (out, n)
}

impl<M> ContextLayer for SessionContext<M> {
    open spec fn name_spec(&self) -> Seq<char> {
        "session"@
    }

    open spec fn priority_spec(&self) -> ContextPriority {
        ContextPriority::Session
    }

    open spec fn applies(&self, before: ResolvedContext, after: ResolvedContext) -> bool {
        &&& after.loaded_skills@ == merged_skills(
            before.loaded_skills@,
            self.loaded_skills@,
        )
        &&& ({
            let summary = session_summary(*self);
            if (self.working_files@.len() > 0 || self.loaded_skills@.len() > 0)
                && summary.len() > 0 {
                after.task_instructions matches Some(t) && t@ == match before.task_instructions {
                    Some(e) => e@ + "\n\n## Session Context\n\n"@ + summary,
                    None => "## Session Context\n\n"@ + summary,
                }
            } else {
                after.task_instructions == before.task_instructions
            }
        })
        &&& after == (ResolvedContext {
            loaded_skills: after.loaded_skills,
            task_instructions: after.task_instructions,
            ..before
        })
    }

    fn layer_name(&self) -> (r: &str)
        ensures
            r@ == "session"@,
    {
        "session"
    }

    fn priority(&self) -> (r: ContextPriority)
        ensures
            r == ContextPriority::Session,
    {
        assert(self.priority_spec() == ContextPriority::Session);
        ContextPriority::Session
    }

    /// Add the session's skills (once per name) and, when the session has
    /// files or skills, append its summary to the task instructions.
    fn apply_to(&self, resolved: &mut ResolvedContext)
    {
        let ghost start = resolved.loaded_skills@;
        let mut i: usize = 0;
        proof {
            assert(self.loaded_skills@.take(0) =~= Seq::<LoadedSkill>::empty());
        }
        while i < self.loaded_skills.len()
            invariant
                0 <= i <= self.loaded_skills@.len(),
                resolved.loaded_skills@ == merged_skills(start, self.loaded_skills@.take(i as int)),
                *resolved == (ResolvedContext {
                    loaded_skills: resolved.loaded_skills,
                    ..*old(resolved)
                }),
                start == old(resolved).loaded_skills@,
            decreases self.loaded_skills.len() - i,
        {
            let skill = &self.loaded_skills[i];
            proof {
                assert(self.loaded_skills@.take(i + 1).drop_last() =~= self.loaded_skills@.take(
                    i as int,
                ));
            }
            if !skill_named(&resolved.loaded_skills, skill.name.as_str()) {
                resolved.loaded_skills.push(copy_skill(skill));
            }
            i = i + 1;
        }
        proof {
            assert(self.loaded_skills@.take(self.loaded_skills@.len() as int)
                =~= self.loaded_skills@);
        }
        if self.working_files.len() > 0 || self.loaded_skills.len() > 0 {
            let summary = self.generate_summary();
            if !summary.as_str().is_empty() {
                let text = match &resolved.task_instructions {
                    Some(existing) => {
                        let mut c = existing.clone();
                        push_str(&mut c, "\n\n## Session Context\n\n");
                        push_str(&mut c, summary.as_str());
                        c
                    },
                    None => {
                        let mut c = to_owned("## Session Context\n\n");
                        push_str(&mut c, summary.as_str());
                        c
                    },
                };
                resolved.task_instructions = Some(text);
            }
        }
    }
}

/// Loads session context; without a database there is none to load.
#[derive(Debug)]
pub struct SessionContextLoader {
    database: bool,
}

impl SessionContextLoader {
    /// A loader without a database.
    pub fn new() -> (r: Self)
        ensures
            !r.has_database(),
    {
        SessionContextLoader { database: false }
    }

    /// Whether the loader has a database to read from.
    pub closed spec fn has_database(&self) -> bool {
        self.database
    }

    /// A new session for an optional user, with an optional title.
    pub fn create<M>(&self, user_id: Option<uuid::Uuid>, title: Option<String>) -> (r:
        SessionContext<M>)
        ensures
            r.user_id == user_id,
            r.title == title,
            empty_session(SessionContext { user_id: None, title: None, ..r }),
    {
        let mut s: SessionContext<M> = SessionContext::default();
        s.user_id = user_id;
        s.title = title;
        s
    }
}

impl Default for SessionContextLoader {
    fn default() -> (r: Self)
        ensures
            !r.has_database(),
    {
        Self::new()
    }
}

} // verus!
