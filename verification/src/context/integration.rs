//! The context hierarchy of one agent run: the layers it has, their
//! resolution into one context (kept until a layer changes), the system
//! prompt built from it, and the context handed to a sub-agent.
use vstd::prelude::*;

use std::path::PathBuf;


use crate::context::organization::{org_conventions_text, OrganizationContext};
use crate::context::platform::{platform_section_text, PlatformContext};
use crate::context::prompt_generator::{
    lemma_plain_can_generate, lemma_plain_generators_agree, SystemPromptGenerator,
};
use crate::context::resolver::{ContextLayer, LoadedSkill, PermissionMode, ResolvedContext};
use crate::context::session::{session_summary, SessionContext};
use crate::context::subagent::{
    add_missing_keys, fork_stamp, key_strings, keys_of, kept_in, plain_subagent, subagent_text,
    union_strings, ContextForkMode, ForkedContext, SubAgentContext, SubAgentContextBuilder,
};
use crate::context::task::{merged_skills, task_text, TaskContext};
use crate::context::user::{user_prefs_text, UserContext};
use crate::json::{bool_json, json_string, number_json, string_json};
use crate::keyed::{has_key, lookup, put};
use crate::text::{push_str, to_owned, views_of};

verus! {

/// `Into::<PathBuf>::into`.  Nothing is said of the path: it has no view here.
#[verifier::external_body]
pub(crate) fn into_path_buf<P: Into<PathBuf>>(p: P) -> PathBuf {
    p.into()
}

/// The layers of one agent run and their cached resolution.  `M` is the type
/// of the session's messages.
pub struct ContextIntegration<M> {
    platform: Option<PlatformContext>,
    organization: Option<OrganizationContext>,
    user: Option<UserContext>,
    session: Option<SessionContext<M>>,
    task: Option<TaskContext>,
    subagent: Option<SubAgentContext>,
    platform_config_path: Option<PathBuf>,
    user_context_dir: Option<PathBuf>,
    resolved: Option<ResolvedContext>,
    bundle_system_prompt: Option<String>,
}

/// What a `ContextIntegration` holds.
pub struct IntegrationView<M> {
    pub platform: Option<PlatformContext>,
    pub organization: Option<OrganizationContext>,
    pub user: Option<UserContext>,
    pub session: Option<SessionContext<M>>,
    pub task: Option<TaskContext>,
    pub subagent: Option<SubAgentContext>,
    pub platform_config_path: Option<PathBuf>,
    pub user_context_dir: Option<PathBuf>,
    pub resolved: Option<ResolvedContext>,
    pub bundle_system_prompt: Option<String>,
}

impl<M> View for ContextIntegration<M> {
    type V = IntegrationView<M>;

    closed spec fn view(&self) -> IntegrationView<M> {
        IntegrationView {
            platform: self.platform,
            organization: self.organization,
            user: self.user,
            session: self.session,
            task: self.task,
            subagent: self.subagent,
            platform_config_path: self.platform_config_path,
            user_context_dir: self.user_context_dir,
            resolved: self.resolved,
            bundle_system_prompt: self.bundle_system_prompt,
        }
    }
}

/// An integration with no layer, no paths, nothing resolved and no bundle.
pub open spec fn empty_integration<M>(v: IntegrationView<M>) -> bool {
    &&& v.platform is None
    &&& v.organization is None
    &&& v.user is None
    &&& v.session is None
    &&& v.task is None
    &&& v.subagent is None
    &&& v.platform_config_path is None
    &&& v.user_context_dir is None
    &&& v.resolved is None
    &&& v.bundle_system_prompt is None
}

impl<M> Default for ContextIntegration<M> {
    fn default() -> (r: Self)
        ensures
            empty_integration(r@),
    {
        ContextIntegration {
            platform: None,
            organization: None,
            user: None,
            session: None,
            task: None,
            subagent: None,
            platform_config_path: None,
            user_context_dir: None,
            resolved: None,
            bundle_system_prompt: None,
        }
    }
}

/// An optional text by its characters.
pub open spec fn text_of(o: Option<String>) -> Option<Seq<char>> {
    match o {
        Some(t) => Some(t@),
        None => None,
    }
}

/// The task instructions after the session layer: its summary under a
/// heading, when it has files or skills and a summary.
pub open spec fn after_session<M>(s: Option<SessionContext<M>>, prev: Option<Seq<char>>) -> Option<
    Seq<char>,
> {
    match s {
        Some(x) => {
            let summary = session_summary(x);
            if (x.working_files@.len() > 0 || x.loaded_skills@.len() > 0) && summary.len() > 0 {
                Some(
                    match prev {
                        Some(e) => e + "\n\n## Session Context\n\n"@ + summary,
                        None => "## Session Context\n\n"@ + summary,
                    },
                )
            } else {
                prev
            }
        },
        None => prev,
    }
}

/// The task instructions after the task layer.
pub open spec fn after_task(t: Option<TaskContext>, prev: Option<Seq<char>>) -> Option<Seq<char>> {
    match t {
        Some(x) => Some(
            match prev {
                Some(e) => e + "\n\n"@ + task_text(x),
                None => task_text(x),
            },
        ),
        None => prev,
    }
}

/// The task instructions after the sub-agent layer.
pub open spec fn after_subagent(a: Option<SubAgentContext>, prev: Option<Seq<char>>) -> Option<
    Seq<char>,
> {
    match a {
        Some(x) => Some(
            match prev {
                Some(e) => e + "\n\n"@ + subagent_text(x, fork_stamp(x)),
                None => subagent_text(x, fork_stamp(x)),
            },
        ),
        None => prev,
    }
}

/// The resolved task instructions: session, then task, then sub-agent.
pub open spec fn resolved_instructions<M>(v: IntegrationView<M>) -> Option<Seq<char>> {
    after_subagent(v.subagent, after_task(v.task, after_session(v.session, None)))
}

/// The resolved skills: the session's, the task's and the fork's, each
/// skipping names already present.
pub open spec fn resolved_skills<M>(v: IntegrationView<M>) -> Seq<LoadedSkill> {
    let s1 = match v.session {
        Some(x) => merged_skills(seq![], x.loaded_skills@),
        None => seq![],
    };
    let s2 = match v.task {
        Some(t) => merged_skills(s1, t.loaded_skills@),
        None => s1,
    };
    match v.subagent {
        Some(a) => match a.forked_context {
            Some(f) => merged_skills(s2, f.loaded_skills@),
            None => s2,
        },
        None => s2,
    }
}

/// The resolved allow list: the task's, narrowed by the sub-agent's.
pub open spec fn resolved_allowed<M>(v: IntegrationView<M>) -> Seq<String> {
    let a1 = match v.task {
        Some(t) => t.constraints.allowed_tools@,
        None => seq![],
    };
    match v.subagent {
        Some(a) => if a.allowed_tools@.len() == 0 {
            a1
        } else if a1.len() == 0 {
            a.allowed_tools@
        } else {
            kept_in(a1, a.allowed_tools@)
        },
        None => a1,
    }
}

/// The resolved block list: the task's, then the sub-agent's new names.
pub open spec fn resolved_blocked<M>(v: IntegrationView<M>) -> Seq<String> {
    let b1 = match v.task {
        Some(t) => t.constraints.blocked_tools@,
        None => seq![],
    };
    match v.subagent {
        Some(a) => union_strings(b1, a.blocked_tools@),
        None => b1,
    }
}

/// The configuration value the platform layer sets under `k`.
pub open spec fn platform_value(p: PlatformContext, k: Seq<char>) -> Option<serde_json::Value> {
    if k == "max_skill_description_chars"@ {
        Some(number_json(p.skill_loading.max_description_chars as u64))
    } else if k == "two_layer_loading"@ {
        Some(bool_json(p.skill_loading.two_layer))
    } else if k == "iteration_enabled"@ {
        Some(bool_json(p.iteration.enabled))
    } else if k == "max_retries"@ {
        Some(number_json(p.iteration.max_retries as u64))
    } else {
        None
    }
}

/// The resolved configuration value under `k`: the platform's, else the
/// forked parent's custom context.
pub open spec fn resolved_config<M>(v: IntegrationView<M>, k: Seq<char>) -> Option<serde_json::Value> {
    let base = match v.platform {
        Some(p) => platform_value(p, k),
        None => None,
    };
    match v.subagent {
        Some(a) => match a.forked_context {
            Some(f) => if base is Some {
                base
            } else {
                lookup(f.custom_context@, k)
            },
            None => base,
        },
        None => base,
    }
}

/// The names of the layers present, in the order they are applied.
pub open spec fn active_names<M>(v: IntegrationView<M>) -> Seq<Seq<char>> {
    (if v.platform is Some {
        seq!["platform"@]
    } else {
        seq![]
    }) + (if v.organization is Some {
        seq!["organization"@]
    } else {
        seq![]
    }) + (if v.user is Some {
        seq!["user"@]
    } else {
        seq![]
    }) + (if v.session is Some {
        seq!["session"@]
    } else {
        seq![]
    }) + (if v.task is Some {
        seq!["task"@]
    } else {
        seq![]
    }) + (if v.subagent is Some {
        seq!["subagent"@]
    } else {
        seq![]
    })
}

/// `r` is the resolution of the layers of `v`: each present layer applied in
/// order platform, organization, user, session, task, sub-agent to an empty
/// context, and its name recorded.
pub open spec fn resolution_of<M>(v: IntegrationView<M>, r: ResolvedContext) -> bool {
    &&& r.platform_rules@ == match v.platform {
        Some(p) => platform_section_text(p),
        None => seq![],
    }
    &&& r.enforce_english == match v.platform {
        Some(p) => p.language.enforce_english,
        None => false,
    }
    &&& text_of(r.org_conventions) == match v.organization {
        Some(o) => Some(org_conventions_text(o)),
        None => None,
    }
    &&& text_of(r.user_preferences) == match v.user {
        Some(u) => Some(user_prefs_text(u)),
        None => None,
    }
    &&& r.memory_context is None
    &&& r.session_context is None
    &&& r.skill_descriptions@.len() == 0
    &&& r.loaded_skills@ == resolved_skills(v)
    &&& text_of(r.task_instructions) == resolved_instructions(v)
    &&& r.subagent_context is None
    &&& r.allowed_tools@ == resolved_allowed(v)
    &&& r.blocked_tools@ == resolved_blocked(v)
    &&& r.permission_mode == match v.subagent {
        Some(a) => a.permission_mode,
        None => PermissionMode::Normal,
    }
    &&& forall|k: Seq<char>| #[trigger] lookup(r.config_values@, k) == resolved_config(v, k)
    &&& r.max_token_limit == 0
    &&& views_of(r.active_layers@) == active_names(v)
}

/// The context a sub-agent forked from `v` gets from its parent: the working
/// file paths of the parent's session and, under `parent_task`, the
/// description of the parent's task.
pub open spec fn forked_from<M>(v: IntegrationView<M>, f: ForkedContext) -> bool {
    &&& views_of(f.working_files@) == match v.session {
        Some(s) => keys_of(s.working_files@),
        None => seq![],
    }
    &&& f.loaded_skills@.len() == 0
    &&& f.discoveries@.len() == 0
    &&& f.task_description is None
    &&& match v.task {
        Some(t) => forall|k: Seq<char>|
            #[trigger] lookup(f.custom_context@, k) == if k == "parent_task"@ {
                Some(string_json(t.description@))
            } else {
                None
            },
        None => f.custom_context@.len() == 0,
    }
}

/// `new` is `old` with its resolution `c` in place: the cached one when there
/// was one, otherwise the fresh resolution of its layers.
pub open spec fn resolved_from<M>(old: IntegrationView<M>, new: IntegrationView<M>, c: ResolvedContext) -> bool {
    &&& new.resolved == Some(c)
    &&& old.resolved matches Some(x) ==> c == x && new == old
    &&& old.resolved is None ==> resolution_of(old, c) && new == (IntegrationView {
        resolved: Some(c),
        ..old
    })
}

/// The plugin bundle's text as added after the system prompt.
pub open spec fn bundle_part(b: Option<String>) -> Seq<char> {
    match b {
        Some(t) => "\n\n# Active Plugin Bundle Context\n\n"@ + t@,
        None => seq![],
    }
}

/// A generator with nothing configured but the given header and
/// tool-permission switches.
pub open spec fn plain_with(g: SystemPromptGenerator, headers: bool, tools: bool) -> bool {
    &&& g.cfg().is_plain()
    &&& g.cfg().include_headers == headers
    &&& g.cfg().include_tool_permissions == tools
}

impl<M> ContextIntegration<M> {
    /// An integration with no layer yet.
    pub fn new() -> (r: Self)
        ensures
            empty_integration(r@),
    {
        Self::default()
    }

    /// Set the platform configuration file's path.
    pub fn with_platform_config<P: Into<PathBuf>>(self, path: P) -> (r: Self)
        ensures
            r@.platform_config_path is Some,
            r@ == (IntegrationView { platform_config_path: r@.platform_config_path, ..self@ }),
    {
        let mut s = self;
        s.platform_config_path = Some(into_path_buf(path));
        s
    }

    /// Set the prompt text of the active plugin bundles, added after the
    /// system prompt.
    pub fn with_bundle_system_prompt(self, prompt: String) -> (r: Self)
        ensures
            r@ == (IntegrationView { bundle_system_prompt: Some(prompt), ..self@ }),
    {
        let mut s = self;
        s.bundle_system_prompt = Some(prompt);
        s
    }

    /// Set the directory of the user's instructions file.
    pub fn with_user_context_dir<P: Into<PathBuf>>(self, dir: P) -> (r: Self)
        ensures
            r@.user_context_dir is Some,
            r@ == (IntegrationView { user_context_dir: r@.user_context_dir, ..self@ }),
    {
        let mut s = self;
        s.user_context_dir = Some(into_path_buf(dir));
        s
    }

    /// Set the platform layer; the resolution is discarded.
    pub fn with_platform(self, platform: PlatformContext) -> (r: Self)
        ensures
            r@ == (IntegrationView { platform: Some(platform), resolved: None, ..self@ }),
    {
        let mut s = self;
        s.platform = Some(platform);
        s.resolved = None;
        s
    }

    /// Set the organization layer; the resolution is discarded.
    pub fn with_organization(self, org: OrganizationContext) -> (r: Self)
        ensures
            r@ == (IntegrationView { organization: Some(org), resolved: None, ..self@ }),
    {
        let mut s = self;
        s.organization = Some(org);
        s.resolved = None;
        s
    }

    /// Set the user layer; the resolution is discarded.
    pub fn with_user(self, user: UserContext) -> (r: Self)
        ensures
            r@ == (IntegrationView { user: Some(user), resolved: None, ..self@ }),
    {
        let mut s = self;
        s.user = Some(user);
        s.resolved = None;
        s
    }

    /// Set the session layer; the resolution is discarded.
    pub fn with_session(self, session: SessionContext<M>) -> (r: Self)
        ensures
            r@ == (IntegrationView { session: Some(session), resolved: None, ..self@ }),
    {
        let mut s = self;
        s.session = Some(session);
        s.resolved = None;
        s
    }

    /// Set the task layer; the resolution is discarded.
    pub fn with_task(self, task: TaskContext) -> (r: Self)
        ensures
            r@ == (IntegrationView { task: Some(task), resolved: None, ..self@ }),
    {
        let mut s = self;
        s.task = Some(task);
        s.resolved = None;
        s
    }

    /// Set the sub-agent layer; the resolution is discarded.
    pub fn with_subagent(self, subagent: SubAgentContext) -> (r: Self)
        ensures
            r@ == (IntegrationView { subagent: Some(subagent), resolved: None, ..self@ }),
    {
        let mut s = self;
        s.subagent = Some(subagent);
        s.resolved = None;
        s
    }

    /// The platform configuration file's path, if set.
    pub fn platform_config_path(&self) -> (r: Option<&PathBuf>)
        ensures
            r is Some <==> self@.platform_config_path is Some,
    {
        self.platform_config_path.as_ref()
    }

    /// The directory of the user's instructions file, if set.
    pub fn user_context_dir(&self) -> (r: Option<&PathBuf>)
        ensures
            r is Some <==> self@.user_context_dir is Some,
    {
        self.user_context_dir.as_ref()
    }

    /// Load the organization layer: without a database it is the empty
    /// organization, set only when there is none yet.
    pub fn load_organization(&mut self, _org_id: &str) -> (r: &OrganizationContext)
        ensures
            old(self)@.organization is Some ==> final(self)@ == old(self)@,
            old(self)@.organization is None ==> final(self)@ == (IntegrationView {
                organization: final(self)@.organization,
                resolved: None,
                ..old(self)@
            }),
            final(self)@.organization == Some(*r),
    {
        if self.organization.is_none() {
            self.organization = Some(OrganizationContext::default());
            self.resolved = None;
        }
        self.organization.as_ref().unwrap()
    }

    /// Start a new session with the given id; the resolution is discarded.
    pub fn create_session(&mut self, session_id: uuid::Uuid) -> (r: &SessionContext<M>)
        ensures
            r.session_id == session_id,
            crate::context::session::empty_session(*r),
            final(self)@ == (IntegrationView { session: Some(*r), resolved: None, ..old(self)@ }),
    {
        self.session = Some(SessionContext::new(session_id));
        self.resolved = None;
        self.session.as_ref().unwrap()
    }

    /// Start a new task with the given description; the resolution is
    /// discarded.
    pub fn create_task(&mut self, description: &str) -> (r: &TaskContext)
        ensures
            crate::context::task::fresh_task(*r),
            r.description@ == description@,
            final(self)@ == (IntegrationView { task: Some(*r), resolved: None, ..old(self)@ }),
    {
        self.task = Some(TaskContext::new(description));
        self.resolved = None;
        self.task.as_ref().unwrap()
    }

    /// Records a layer's name as applied.
    fn note_layer(resolved: &mut ResolvedContext, name: &str)
        ensures
            views_of(final(resolved).active_layers@) == views_of(old(resolved).active_layers@).push(
                name@,
            ),
            *final(resolved) == (ResolvedContext {
                active_layers: final(resolved).active_layers,
                ..*old(resolved)
            }),
    {
        let ghost before = resolved.active_layers@;
        resolved.active_layers.push(to_owned(name));
        proof {
            assert(views_of(resolved.active_layers@) =~= views_of(before).push(name@));
        }
    }

    /// The platform, organization and user layers applied to an empty context.
    fn resolve_upper(&self) -> (r: ResolvedContext)
        ensures
            r.platform_rules@ == match self@.platform {
                Some(p) => platform_section_text(p),
                None => seq![],
            },
            r.enforce_english == match self@.platform {
                Some(p) => p.language.enforce_english,
                None => false,
            },
            text_of(r.org_conventions) == match self@.organization {
                Some(o) => Some(org_conventions_text(o)),
                None => None,
            },
            text_of(r.user_preferences) == match self@.user {
                Some(u) => Some(user_prefs_text(u)),
                None => None,
            },
            r.memory_context is None,
            r.session_context is None,
            r.skill_descriptions@.len() == 0,
            r.loaded_skills@.len() == 0,
            r.task_instructions is None,
            r.subagent_context is None,
            r.allowed_tools@.len() == 0,
            r.blocked_tools@.len() == 0,
            r.permission_mode == PermissionMode::Normal,
            forall|k: Seq<char>|
                #[trigger] lookup(r.config_values@, k) == match self@.platform {
                    Some(p) => platform_value(p, k),
                    None => None,
                },
            r.max_token_limit == 0,
            views_of(r.active_layers@) == (if self@.platform is Some {
                seq!["platform"@]
            } else {
                seq![]
            }) + (if self@.organization is Some {
                seq!["organization"@]
            } else {
                seq![]
            }) + (if self@.user is Some {
                seq!["user"@]
            } else {
                seq![]
            }),
    {
        let mut resolved = ResolvedContext::default();
        proof {
            assert(views_of(resolved.active_layers@) =~= Seq::<Seq<char>>::empty());
        }
        if let Some(p) = &self.platform {
            p.apply_to(&mut resolved);
            Self::note_layer(&mut resolved, "platform");
            proof {
                reveal_strlit("max_skill_description_chars");
                reveal_strlit("two_layer_loading");
                reveal_strlit("iteration_enabled");
                reveal_strlit("max_retries");
                let k1 = "max_skill_description_chars"@;
                let k2 = "two_layer_loading"@;
                let k3 = "iteration_enabled"@;
                let k4 = "max_retries"@;
                assert(k1.len() != k2.len() && k1.len() != k3.len() && k1.len() != k4.len());
                assert(k2[0] != k3[0] && k2[0] != k4[0] && k3[0] != k4[0]);
                assert forall|k: Seq<char>| #[trigger] lookup(resolved.config_values@, k)
                    == platform_value(*p, k) by {
                    if k == k1 {
                    } else if k == k2 {
                    } else if k == k3 {
                    } else if k == k4 {
                    } else {
                        assert(!crate::context::platform::platform_config_key(k));
                        assert(!has_key(Seq::<(String, serde_json::Value)>::empty(), k));
                    }
                }
            }
        }
        let ghost a1 = views_of(resolved.active_layers@);
        if let Some(o) = &self.organization {
            o.apply_to(&mut resolved);
            Self::note_layer(&mut resolved, "organization");
        }
        let ghost a2 = views_of(resolved.active_layers@);
        if let Some(u) = &self.user {
            u.apply_to(&mut resolved);
            Self::note_layer(&mut resolved, "user");
        }
        proof {
            assert(views_of(resolved.active_layers@) =~= (if self@.platform is Some {
                seq!["platform"@]
            } else {
                seq![]
            }) + (if self@.organization is Some {
                seq!["organization"@]
            } else {
                seq![]
            }) + (if self@.user is Some {
                seq!["user"@]
            } else {
                seq![]
            }));
        }
        resolved
    }

    /// The resolution of this integration's layers.
    pub fn fresh_resolution(&self) -> (r: ResolvedContext)
        ensures
            resolution_of(self@, r),
    {
        let mut resolved = self.resolve_upper();
        proof {
            assert(resolved.loaded_skills@ =~= Seq::<LoadedSkill>::empty());
            assert(resolved.blocked_tools@ =~= Seq::<String>::empty());
            assert(resolved.allowed_tools@ =~= Seq::<String>::empty());
        }
        if let Some(sess) = &self.session {
            sess.apply_to(&mut resolved);
            Self::note_layer(&mut resolved, "session");
        }
        if let Some(t) = &self.task {
            let ghost b0 = resolved.blocked_tools@;
            t.apply_to(&mut resolved);
            Self::note_layer(&mut resolved, "task");
            proof {
                assert(b0 + t.constraints.blocked_tools@ =~= t.constraints.blocked_tools@);
            }
        }
        let ghost before_sub = resolved;
        if let Some(a) = &self.subagent {
            a.apply_to(&mut resolved);
            Self::note_layer(&mut resolved, "subagent");
            proof {
                if a.forked_context is Some {
                    let f = a.forked_context->0;
                    {
                        assert forall|k: Seq<char>| #[trigger] lookup(resolved.config_values@, k)
                            == resolved_config(self@, k) by {
                            crate::context::subagent::lemma_add_missing_keys_lookup(
                                before_sub.config_values@,
                                f.custom_context@,
                                k,
                            );
                        }
                    }
                }
            }
        }
        proof {
            assert(views_of(resolved.active_layers@) =~= active_names(self@));
            let v = self@;
            assert(resolved.loaded_skills@ == resolved_skills(v));
            assert(text_of(resolved.task_instructions) == resolved_instructions(v));
            assert(resolved.allowed_tools@ == resolved_allowed(v));
            assert(resolved.blocked_tools@ == resolved_blocked(v));
            assert(forall|k: Seq<char>| #[trigger]
                lookup(resolved.config_values@, k) == resolved_config(v, k));
        }
        resolved
    }

    /// The resolved context: the cached one, or the layers resolved now and
    /// kept until a layer changes.
    pub fn resolve(&mut self) -> (r: &ResolvedContext)
        ensures
            resolved_from(old(self)@, final(self)@, *r),
    {
        if self.resolved.is_none() {
            let fresh = self.fresh_resolution();
            self.resolved = Some(fresh);
        }
        self.resolved.as_ref().unwrap()
    }

    /// The resolved context (resolving it when needed).
    pub fn resolved_context(&mut self) -> (r: &ResolvedContext)
        ensures
            resolved_from(old(self)@, final(self)@, *r),
    {
        self.resolve()
    }

    /// The resolution kept now, if any.
    pub fn cached_resolution(&self) -> (r: Option<&ResolvedContext>)
        ensures
            r is Some <==> self@.resolved is Some,
            r matches Some(c) ==> self@.resolved == Some(*c),
    {
        self.resolved.as_ref()
    }

    /// The prompt of the resolved context with headers and tool permissions,
    /// followed by the plugin bundle's text when one is set.
    pub fn generate_system_prompt(&mut self) -> (r: String)
        ensures
            final(self)@.resolved matches Some(c) && resolved_from(old(self)@, final(self)@, c)
                && forall|g: SystemPromptGenerator|
                #![trigger g.generate_spec(c)]
                plain_with(g, true, true) ==> r@ == g.generate_spec(c) + bundle_part(
                    old(self)@.bundle_system_prompt,
                ),
    {
        let mut prompt = {
            let resolved = self.resolve();
            let g = SystemPromptGenerator::new().with_headers(true).with_tool_permissions(true);
            proof {
                lemma_plain_can_generate(g, *resolved);
            }
            let p = g.generate(resolved);
            proof {
                assert forall|g2: SystemPromptGenerator|
                    #![trigger g2.generate_spec(*resolved)]
                    plain_with(g2, true, true) implies p@ == g2.generate_spec(*resolved) by {
                    lemma_plain_generators_agree(g, g2, *resolved);
                }
            }
            p
        };
        if let Some(bundle) = &self.bundle_system_prompt {
            push_str(&mut prompt, "\n\n# Active Plugin Bundle Context\n\n");
            push_str(&mut prompt, bundle.as_str());
        }
        prompt
    }

    /// The prompt of the resolved context without headers or tool
    /// permissions.
    pub fn generate_minimal_prompt(&mut self) -> (r: String)
        ensures
            final(self)@.resolved matches Some(c) && resolved_from(old(self)@, final(self)@, c)
                && forall|g: SystemPromptGenerator|
                #![trigger g.generate_spec(c)]
                plain_with(g, false, false) ==> r@ == g.generate_spec(c),
    {
        let resolved = self.resolve();
        let g = SystemPromptGenerator::new().with_headers(false).with_tool_permissions(false);
        proof {
            lemma_plain_can_generate(g, *resolved);
        }
        let p = g.generate(resolved);
        proof {
            assert forall|g2: SystemPromptGenerator|
                #![trigger g2.generate_spec(*resolved)]
                plain_with(g2, false, false) implies p@ == g2.generate_spec(*resolved) by {
                lemma_plain_generators_agree(g, g2, *resolved);
            }
        }
        p
    }

    /// Whether the resolved context allows a tool.
    pub fn is_tool_allowed(&mut self, tool: &str) -> (r: bool)
        ensures
            final(self)@.resolved matches Some(c) && resolved_from(old(self)@, final(self)@, c)
                && r == c.tool_allowed(tool@),
    {
        self.resolve().is_tool_allowed(tool)
    }

    /// The resolved permission mode.
    pub fn permission_mode(&mut self) -> (r: PermissionMode)
        ensures
            final(self)@.resolved matches Some(c) && resolved_from(old(self)@, final(self)@, c)
                && r == c.permission_mode,
    {
        self.resolve().permission_mode
    }

    /// Add a loaded skill to the kept resolution; without one, nothing
    /// changes.
    pub fn add_loaded_skill(&mut self, skill: LoadedSkill)
        ensures
            old(self)@.resolved is None ==> final(self)@ == old(self)@,
            old(self)@.resolved matches Some(c) ==> final(self)@.resolved matches Some(n)
                && n.loaded_skills@ == c.loaded_skills@.push(skill) && n == (ResolvedContext {
                loaded_skills: n.loaded_skills,
                ..c
            }) && final(self)@ == (IntegrationView { resolved: final(self)@.resolved, ..old(self)@ }),
    {
        if let Some(resolved) = &mut self.resolved {
            resolved.loaded_skills.push(skill);
        }
    }

    /// Discard the kept resolution.
    pub fn invalidate_cache(&mut self)
        ensures
            final(self)@ == (IntegrationView { resolved: None, ..old(self)@ }),
    {
        self.resolved = None;
    }

    /// The integration of a sub-agent: the parent's platform, organization and
    /// user layers, no session or task of its own, and a sub-agent layer of
    /// the given id, type and fork mode under the parent's session.  Except
    /// in isolation the sub-agent gets a forked context (which makes its mode
    /// `Fork`) holding the parent's working files and task description.
    pub fn fork_for_subagent(
        &self,
        subagent_id: &str,
        agent_type: &str,
        fork_mode: ContextForkMode,
    ) -> (r: ContextIntegration<M>)
        ensures
            r@.platform is Some <==> self@.platform is Some,
            r@.organization is Some <==> self@.organization is Some,
            r@.user is Some <==> self@.user is Some,
            r@.session is None,
            r@.task is None,
            r@.platform_config_path is None,
            r@.user_context_dir is None,
            r@.resolved is None,
            r@.bundle_system_prompt is None,
            r@.subagent matches Some(a) && {
                &&& a.subagent_id@ == subagent_id@
                &&& a.agent_type@ == agent_type@
                &&& a.parent_session_id == match self@.session {
                    Some(s) => Some(s.session_id),
                    None => None,
                }
                &&& if fork_mode == ContextForkMode::Isolated {
                    a.fork_mode == ContextForkMode::Isolated && a.forked_context is None
                } else {
                    &&& a.fork_mode == ContextForkMode::Fork
                    &&& a.forked_context matches Some(f) && forked_from(self@, f)
                }
                &&& plain_subagent(
                    SubAgentContext {
                        parent_session_id: None,
                        fork_mode: ContextForkMode::Isolated,
                        forked_context: None,
                        ..a
                    },
                )
            },
    {
        let mut builder = SubAgentContextBuilder::new(agent_type).id(subagent_id).fork_mode(
            fork_mode,
        );
        if let Some(session) = &self.session {
            builder = builder.parent(session.session_id);
        }
        if fork_mode == ContextForkMode::Inherit || fork_mode == ContextForkMode::Fork {
            let mut forked = ForkedContext::default();
            if let Some(session) = &self.session {
                forked.working_files = key_strings(&session.working_files);
            } else {
                proof {
                    assert(views_of(forked.working_files@) =~= Seq::<Seq<char>>::empty());
                }
            }
            if let Some(task) = &self.task {
                let ghost empty = forked.custom_context@;
                put(
                    &mut forked.custom_context,
                    "parent_task",
                    json_string(task.description.clone()),
                );
                proof {
                    assert forall|k: Seq<char>| #[trigger]
                        lookup(forked.custom_context@, k) == if k == "parent_task"@ {
                            Some(string_json(task.description@))
                        } else {
                            None
                        } by {
                        if k != "parent_task"@ {
                            assert(!has_key(empty, k));
                        }
                    }
                }
            }
            builder = builder.forked_context(forked);
        }
        let subagent = builder.build();
        let mut fork = ContextIntegration::new();
        fork.platform = self.platform.clone();
        fork.organization = self.organization.clone();
        fork.user = self.user.clone();
        fork.subagent = Some(subagent);
        fork
    }

    /// The organization layer.
    pub fn organization(&self) -> (r: Option<&OrganizationContext>)
        ensures
            r is Some <==> self@.organization is Some,
            r matches Some(o) ==> self@.organization == Some(*o),
    {
        self.organization.as_ref()
    }

    /// The user layer.
    pub fn user(&self) -> (r: Option<&UserContext>)
        ensures
            r is Some <==> self@.user is Some,
            r matches Some(u) ==> self@.user == Some(*u),
    {
        self.user.as_ref()
    }

    /// The session layer.
    pub fn session(&self) -> (r: Option<&SessionContext<M>>)
        ensures
            r is Some <==> self@.session is Some,
            r matches Some(s) ==> self@.session == Some(*s),
    {
        self.session.as_ref()
    }

    /// The session layer, to change; the resolution is discarded.
    pub fn session_mut(&mut self) -> (r: Option<&mut SessionContext<M>>)
        ensures
            old(self)@.session is None ==> r is None && final(self)@ == (IntegrationView {
                resolved: None,
                ..old(self)@
            }),
            old(self)@.session is Some ==> (r matches Some(x) && old(self)@.session == Some(*x)
                && final(self)@ == (IntegrationView {
                session: Some(*final(x)),
                resolved: None,
                ..old(self)@
            })),
    {
        self.resolved = None;
        self.session.as_mut()
    }

    /// The task layer.
    pub fn task(&self) -> (r: Option<&TaskContext>)
        ensures
            r is Some <==> self@.task is Some,
            r matches Some(t) ==> self@.task == Some(*t),
    {
        self.task.as_ref()
    }

    /// The task layer, to change; the resolution is discarded.
    pub fn task_mut(&mut self) -> (r: Option<&mut TaskContext>)
        ensures
            old(self)@.task is None ==> r is None && final(self)@ == (IntegrationView {
                resolved: None,
                ..old(self)@
            }),
            old(self)@.task is Some ==> (r matches Some(x) && old(self)@.task == Some(*x)
                && final(self)@ == (IntegrationView {
                task: Some(*final(x)),
                resolved: None,
                ..old(self)@
            })),
    {
        self.resolved = None;
        self.task.as_mut()
    }

    /// The sub-agent layer.
    pub fn subagent(&self) -> (r: Option<&SubAgentContext>)
        ensures
            r is Some <==> self@.subagent is Some,
            r matches Some(a) ==> self@.subagent == Some(*a),
    {
        self.subagent.as_ref()
    }

    /// The platform layer.
    pub fn platform(&self) -> (r: Option<&PlatformContext>)
        ensures
            r == match self@.platform {
                Some(p) => Some(&p),
                None => None::<&PlatformContext>,
            },
    {
        self.platform.as_ref()
    }
}

/// Resolving is cached: a second resolution, with no layer changed in
/// between, gives the same context and leaves the integration as it was.
pub proof fn lemma_resolve_cached<M>(
    v0: IntegrationView<M>,
    v1: IntegrationView<M>,
    v2: IntegrationView<M>,
    c1: ResolvedContext,
    c2: ResolvedContext,
)
    requires
        resolved_from(v0, v1, c1),
        resolved_from(v1, v2, c2),
    ensures
        c2 == c1,
        v2 == v1,
{
}

/// With no layer present, the resolution is the empty context: no platform
/// rules, no instructions, no tools, no configuration and no active layer.
pub proof fn lemma_empty_resolution<M>(v: IntegrationView<M>, r: ResolvedContext)
    requires
        v.platform is None,
        v.organization is None,
        v.user is None,
        v.session is None,
        v.task is None,
        v.subagent is None,
        resolution_of(v, r),
    ensures
        r.platform_rules@.len() == 0,
        r.org_conventions is None,
        r.user_preferences is None,
        r.loaded_skills@.len() == 0,
        r.task_instructions is None,
        r.allowed_tools@.len() == 0,
        r.blocked_tools@.len() == 0,
        r.permission_mode == PermissionMode::Normal,
        forall|k: Seq<char>| #[trigger] lookup(r.config_values@, k) is None,
        r.active_layers@.len() == 0,
{
    assert(views_of(r.active_layers@).len() == r.active_layers@.len());
    assert(active_names(v) =~= Seq::<Seq<char>>::empty());
}

/// A tool that the task or the sub-agent blocks is not allowed by the
/// resolution, whatever allow lists they give.
pub proof fn lemma_blocked_tools_stay_blocked<M>(v: IntegrationView<M>, r: ResolvedContext, tool: Seq<char>)
    requires
        resolution_of(v, r),
        (v.task matches Some(t) && views_of(t.constraints.blocked_tools@).contains(tool))
            || (v.subagent matches Some(a) && views_of(a.blocked_tools@).contains(tool)),
    ensures
        !r.tool_allowed(tool),
{
    let b1 = match v.task {
        Some(t) => t.constraints.blocked_tools@,
        None => seq![],
    };
    if v.subagent is Some {
        crate::context::subagent::lemma_union_strings_contains(
            b1,
            v.subagent->0.blocked_tools@,
            tool,
        );
    }
    let blocked = r.blocked_tools@;
    assert(views_of(blocked).contains(tool));
    let i = choose|i: int| 0 <= i < views_of(blocked).len() && views_of(blocked)[i] == tool;
    assert(blocked[i]@ == tool);
}

} // verus!
