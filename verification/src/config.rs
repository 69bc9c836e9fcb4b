//! Agent configuration files: a YAML frontmatter between `---` lines followed
//! by a markdown body that becomes the system prompt.  Files are validated and
//! merged along their `extends` chain, the child overriding its parent.
use vstd::prelude::*;

use std::path::PathBuf;


use crate::automation::asset_store::io_error_text;
use crate::automation::code_generator::lemma_find_shift;
use crate::automation::explorer::lemma_find_bounds;
use crate::context::subagent::union_strings;
use crate::keyed::{contains_string, get_ref, has_key, is_first_key, lemma_first_key, lemma_has_first_key, lookup, put};
use crate::text::{views_of, 
    chars_of, find, find_chars, push_str, starts_with, starts_with_chars, str_eq,
    string_from_range, to_owned, trim, trim_string,
};

verus! {

/// Errors of reading, parsing and resolving configuration files.
#[derive(Debug)]
pub enum AgentFileConfigError {
    Io(std::io::Error),
    YamlParse(String),
    InvalidFrontmatter(String),
    Config(String),
    CircularInheritance(String),
    ParentNotFound(String),
    Validation(String),
}

impl From<std::io::Error> for AgentFileConfigError {
    fn from(e: std::io::Error) -> (r: Self)
        ensures
            r == AgentFileConfigError::Io(e),
    {
        AgentFileConfigError::Io(e)
    }
}

impl vstd::std_specs::convert::FromSpecImpl<std::io::Error> for AgentFileConfigError {
    open spec fn obeys_from_spec() -> bool {
        true
    }

    open spec fn from_spec(v: std::io::Error) -> AgentFileConfigError {
        AgentFileConfigError::Io(v)
    }
}

impl AgentFileConfigError {
    /// The text of the error: its kind's prefix and its message (for an I/O
    /// error, the error's own display text).
    pub fn message(&self) -> (r: String)
        ensures
            match self {
                AgentFileConfigError::Io(_) => starts_with(r@, "IO error: "@),
                AgentFileConfigError::YamlParse(m) => r@ == "YAML parse error: "@ + m@,
                AgentFileConfigError::InvalidFrontmatter(m) => r@ == "Invalid frontmatter: "@ + m@,
                AgentFileConfigError::Config(m) => r@ == "Configuration error: "@ + m@,
                AgentFileConfigError::CircularInheritance(m) => r@
                    == "Circular inheritance detected: "@ + m@,
                AgentFileConfigError::ParentNotFound(m) => r@ == "Parent config not found: "@ + m@,
                AgentFileConfigError::Validation(m) => r@ == "Validation error: "@ + m@,
            },
    {
        let (prefix, m) = match self {
            AgentFileConfigError::Io(e) => {
                let mut s = to_owned("IO error: ");
                let t = io_error_text(e);
                let ghost head = s@;
                push_str(&mut s, t.as_str());
                proof {
                    assert(s@.subrange(0, head.len() as int) =~= head);
                }
                return s;
            },
            AgentFileConfigError::YamlParse(m) => ("YAML parse error: ", m),
            AgentFileConfigError::InvalidFrontmatter(m) => ("Invalid frontmatter: ", m),
            AgentFileConfigError::Config(m) => ("Configuration error: ", m),
            AgentFileConfigError::CircularInheritance(m) => ("Circular inheritance detected: ", m),
            AgentFileConfigError::ParentNotFound(m) => ("Parent config not found: ", m),
            AgentFileConfigError::Validation(m) => ("Validation error: ", m),
        };
        let mut s = to_owned(prefix);
        push_str(&mut s, m.as_str());
        s
    }
}

/// The frontmatter and body of a configuration file: the frontmatter is the
/// trimmed text between an opening `---` and the next line starting with
/// `---`, the body the trimmed text after that line's `---`; a file that does
/// not start with `---` is all body, and one whose frontmatter is not closed
/// has none (`None`).
pub open spec fn frontmatter_split(input: Seq<char>) -> Option<(Seq<char>, Seq<char>)> {
    let t = trim(input);
    if !starts_with(t, "---"@) {
        Some((seq![], t))
    } else {
        let rest = t.skip(3);
        match find(rest, "\n---"@) {
            Some(p) => Some((trim(rest.take(p)), trim(rest.skip(p + 4)))),
            None => None,
        }
    }
}

/// Split a configuration file into its frontmatter and its body.
pub fn split_frontmatter(input: &str) -> (r: Result<(String, String), AgentFileConfigError>)
    ensures
        match frontmatter_split(input@) {
            Some((f, c)) => r matches Ok((rf, rc)) && rf@ == f && rc@ == c,
            None => r matches Err(AgentFileConfigError::InvalidFrontmatter(m)) && m@
                == "Missing closing --- for frontmatter"@,
        },
{
    let t = trim_string(input);
    let c = chars_of(t.as_str());
    let open = chars_of("---");
    if !starts_with_chars(c.as_slice(), open.as_slice()) {
        return Ok((String::new(), t));
    }
    proof {
        reveal_strlit("---");
    }
    let close = chars_of("\n---");
    let found = find_chars(c.as_slice(), close.as_slice(), 3);
    proof {
        lemma_find_shift(c@, close@, 3, 0);
    }
    match found {
        Some(pos) => {
            proof {
                reveal_strlit("\n---");
                lemma_find_bounds(c@, close@, 3);
                let rest = c@.skip(3);
                assert(rest.take(pos - 3) =~= c@.subrange(3, pos as int));
                assert(rest.skip(pos - 3 + 4) =~= c@.subrange(pos + 4, c@.len() as int));
            }
            let front = string_from_range(c.as_slice(), 3, pos);
            let body = string_from_range(c.as_slice(), pos + 4, c.len());
            Ok((trim_string(front.as_str()), trim_string(body.as_str())))
        },
        None => Err(
            AgentFileConfigError::InvalidFrontmatter(
                to_owned("Missing closing --- for frontmatter"),
            ),
        ),
    }
}

/// Whether two path texts name the same path: `Path`'s equality, which
/// compares paths component by component.
pub uninterp spec fn same_path(a: Seq<char>, b: Seq<char>) -> bool;

/// `Path::new(a) == Path::new(b)`: the answer is the named `same_path`.
#[verifier::external_body]
fn paths_equal(a: &str, b: &str) -> (r: bool)
    ensures
        r == same_path(a@, b@),
{
    std::path::Path::new(a) == std::path::Path::new(b)
}

/// Tool access configuration.  Tool settings are kept by tool name.
#[derive(Debug, Clone)]
pub struct ToolsConfig {
    /// Allowed tools (glob patterns supported).
    pub allowed: Vec<String>,
    /// Blocked tools (glob patterns supported).
    pub blocked: Vec<String>,
    /// Tool-specific configurations, by tool name.
    pub config: Option<Vec<(String, serde_json::Value)>>,
}

impl Default for ToolsConfig {
    fn default() -> (r: Self)
        ensures
            r.allowed@.len() == 0,
            r.blocked@.len() == 0,
            r.config is None,
    {
        ToolsConfig { allowed: Vec::new(), blocked: Vec::new(), config: None }
    }
}

/// Permission mode as written in a configuration file.
#[derive(Debug, Clone, Copy, PartialEq, Eq, Structural)]
pub enum PermissionModeStr {
    Default,
    AcceptEdits,
    Plan,
    BypassPermissions,
}

/// Permission configuration.  Directories are held as path texts.
#[derive(Debug, Clone)]
pub struct PermissionsConfig {
    /// Permission mode.
    pub mode: Option<PermissionModeStr>,
    /// Allowed directories for file operations.
    pub allowed_directories: Vec<String>,
    /// Blocked directories.
    pub blocked_directories: Vec<String>,
    /// Command allow patterns.
    pub allowed_commands: Vec<String>,
    /// Command block patterns.
    pub blocked_commands: Vec<String>,
}

impl Default for PermissionsConfig {
    fn default() -> (r: Self)
        ensures
            r.mode is None,
            r.allowed_directories@.len() == 0,
            r.blocked_directories@.len() == 0,
            r.allowed_commands@.len() == 0,
            r.blocked_commands@.len() == 0,
    {
        PermissionsConfig {
            mode: None,
            allowed_directories: Vec::new(),
            blocked_directories: Vec::new(),
            allowed_commands: Vec::new(),
            blocked_commands: Vec::new(),
        }
    }
}

/// An MCP server definition.  Environment variables are kept by name.
#[derive(Debug, Clone)]
pub struct McpServerDef {
    /// Command to start the server.
    pub command: String,
    /// Command arguments.
    pub args: Vec<String>,
    /// Environment variables, by name.
    pub env: Vec<(String, String)>,
    /// Working directory.
    pub cwd: Option<String>,
    /// Whether to auto-start.
    pub auto_start: bool,
}

/// Servers auto-start unless said otherwise.
pub fn default_true() -> (r: bool)
    ensures
        r,
{
    true
}

/// Agent model selection as written in a configuration file.
#[derive(Debug, Clone, Copy, PartialEq, Eq, Structural)]
pub enum AgentModelStr {
    Sonnet,
    Opus,
    Haiku,
    Inherit,
}

/// A sub-agent definition.
#[derive(Debug, Clone)]
pub struct AgentDef {
    /// Agent description.
    pub description: String,
    /// System prompt for this agent.
    pub prompt: String,
    /// Tools available to this agent.
    pub tools: Option<Vec<String>>,
    /// Model to use.
    pub model: Option<AgentModelStr>,
    /// Whether this agent can spawn sub-agents.
    pub can_spawn_agents: bool,
}

/// Context compaction configuration.
#[derive(Debug, Clone, Copy)]
pub struct CompactionDef {
    /// Whether compaction is enabled.
    pub enabled: Option<bool>,
    /// Max context tokens before compaction.
    pub max_context_tokens: Option<usize>,
    /// Minimum messages to keep.
    pub min_messages_to_keep: Option<usize>,
    /// Target tokens after compaction.
    pub target_tokens: Option<usize>,
}

/// The frontmatter of a configuration file.  Maps are kept by key; the budget,
/// a number of US dollars, is held as the bit pattern of its `f64`.
#[derive(Debug, Clone)]
pub struct AgentFileFrontmatter {
    /// Agent name/identifier.
    pub name: Option<String>,
    /// Agent description.
    pub description: Option<String>,
    /// Model to use.
    pub model: Option<String>,
    /// Parent configuration to extend.
    pub extends: Option<String>,
    /// Tool configuration.
    pub tools: Option<ToolsConfig>,
    /// Permission configuration.
    pub permissions: Option<PermissionsConfig>,
    /// MCP server configurations, by name.
    pub mcp_servers: Option<Vec<(String, McpServerDef)>>,
    /// Custom agents (sub-agents), by name.
    pub agents: Option<Vec<(String, AgentDef)>>,
    /// Maximum turns.
    pub max_turns: Option<u32>,
    /// Bits of the `f64` maximum budget in USD.
    pub max_budget_usd_bits: Option<u64>,
    /// Enable extended thinking.
    pub enable_thinking: Option<bool>,
    /// API timeout in seconds.
    pub api_timeout_secs: Option<u64>,
    /// Tool timeout in seconds.
    pub tool_timeout_secs: Option<u64>,
    /// Context compaction settings.
    pub compaction: Option<CompactionDef>,
    /// Custom metadata, by key.
    pub metadata: Option<Vec<(String, serde_json::Value)>>,
}

/// A frontmatter with nothing set.
pub open spec fn empty_frontmatter(f: AgentFileFrontmatter) -> bool {
    &&& f.name is None
    &&& f.description is None
    &&& f.model is None
    &&& f.extends is None
    &&& f.tools is None
    &&& f.permissions is None
    &&& f.mcp_servers is None
    &&& f.agents is None
    &&& f.max_turns is None
    &&& f.max_budget_usd_bits is None
    &&& f.enable_thinking is None
    &&& f.api_timeout_secs is None
    &&& f.tool_timeout_secs is None
    &&& f.compaction is None
    &&& f.metadata is None
}

impl Default for AgentFileFrontmatter {
    fn default() -> (r: Self)
        ensures
            empty_frontmatter(r),
    {
        AgentFileFrontmatter {
            name: None,
            description: None,
            model: None,
            extends: None,
            tools: None,
            permissions: None,
            mcp_servers: None,
            agents: None,
            max_turns: None,
            max_budget_usd_bits: None,
            enable_thinking: None,
            api_timeout_secs: None,
            tool_timeout_secs: None,
            compaction: None,
            metadata: None,
        }
    }
}

/// A parsed configuration file.
#[derive(Debug, Clone)]
pub struct AgentFileConfig {
    /// Frontmatter configuration.
    pub frontmatter: AgentFileFrontmatter,
    /// Markdown content (the system prompt).
    pub content: String,
    /// Source file path.
    pub source_path: Option<PathBuf>,
}

/// The first blocked name that the allow list also holds.
pub open spec fn first_conflict(allowed: Seq<String>, blocked: Seq<String>) -> Option<Seq<char>>
    decreases blocked.len(),
{
    if blocked.len() == 0 {
        None
    } else {
        match first_conflict(allowed, blocked.drop_last()) {
            Some(b) => Some(b),
            None => if exists|i: int| 0 <= i < allowed.len() && (#[trigger] allowed[i])@
                == blocked.last()@ {
                Some(blocked.last()@)
            } else {
                None
            },
        }
    }
}

/// The first blocked directory that names the same path as an allowed one.
pub open spec fn first_path_conflict(allowed: Seq<String>, blocked: Seq<String>) -> Option<Seq<char>>
    decreases blocked.len(),
{
    if blocked.len() == 0 {
        None
    } else {
        match first_path_conflict(allowed, blocked.drop_last()) {
            Some(b) => Some(b),
            None => if exists|i: int| 0 <= i < allowed.len() && same_path(
                #[trigger] allowed[i]@,
                blocked.last()@,
            ) {
                Some(blocked.last()@)
            } else {
                None
            },
        }
    }
}

/// The validation failure of a frontmatter, if any: the first tool both
/// allowed and blocked, else the first directory both allowed and blocked.
pub open spec fn validation_failure(f: AgentFileFrontmatter) -> Option<Seq<char>> {
    let tools = match f.tools {
        Some(t) => match first_conflict(t.allowed@, t.blocked@) {
            Some(b) => Some("Tool '"@ + b + "' is both allowed and blocked"@),
            None => None,
        },
        None => None,
    };
    if tools is Some {
        tools
    } else {
        match f.permissions {
            Some(p) => match first_path_conflict(p.allowed_directories@, p.blocked_directories@) {
                Some(d) => Some("Directory '"@ + d + "' is both allowed and blocked"@),
                None => None,
            },
            None => None,
        }
    }
}

/// A conflict found in a prefix is the first conflict of the whole list.
proof fn lemma_conflict_prefix(allowed: Seq<String>, blocked: Seq<String>, k: int)
    requires
        0 <= k <= blocked.len(),
    ensures
        first_conflict(allowed, blocked.take(k)) is Some ==> first_conflict(allowed, blocked)
            == first_conflict(allowed, blocked.take(k)),
        first_path_conflict(allowed, blocked.take(k)) is Some ==> first_path_conflict(
            allowed,
            blocked,
        ) == first_path_conflict(allowed, blocked.take(k)),
    decreases blocked.len() - k,
{
    if k < blocked.len() {
        lemma_conflict_prefix(allowed, blocked, k + 1);
        let t = blocked.take(k + 1);
        assert(t.drop_last() =~= blocked.take(k));
    } else {
        assert(blocked.take(k) =~= blocked);
    }
}

/// The first entry of `blocked` that `allowed` also holds.
fn find_conflict(allowed: &Vec<String>, blocked: &Vec<String>, paths: bool) -> (r: Option<usize>)
    ensures
        match r {
            Some(i) => i < blocked@.len() && (if paths {
                first_path_conflict(allowed@, blocked@)
            } else {
                first_conflict(allowed@, blocked@)
            }) == Some(blocked@[i as int]@),
            None => (if paths {
                first_path_conflict(allowed@, blocked@)
            } else {
                first_conflict(allowed@, blocked@)
            }) is None,
        },
{
    let mut i: usize = 0;
    proof {
        assert(blocked@.take(0) =~= Seq::<String>::empty());
    }
    while i < blocked.len()
        invariant
            0 <= i <= blocked@.len(),
            paths ==> first_path_conflict(allowed@, blocked@.take(i as int)) is None,
            !paths ==> first_conflict(allowed@, blocked@.take(i as int)) is None,
        decreases blocked.len() - i,
    {
        let mut j: usize = 0;
        let mut hit = false;
        while j < allowed.len()
            invariant
                0 <= j <= allowed@.len(),
                i < blocked@.len(),
                hit == exists|k: int| 0 <= k < j && if paths {
                    same_path(#[trigger] allowed@[k]@, blocked@[i as int]@)
                } else {
                    (#[trigger] allowed@[k])@ == blocked@[i as int]@
                },
            decreases allowed.len() - j,
        {
            let eq = if paths {
                paths_equal(allowed[j].as_str(), blocked[i].as_str())
            } else {
                str_eq(allowed[j].as_str(), blocked[i].as_str())
            };
            if eq {
                hit = true;
            }
            j = j + 1;
        }
        let ghost t = blocked@.take(i + 1);
        proof {
            assert(t.drop_last() =~= blocked@.take(i as int));
            assert(t.last() == blocked@[i as int]);
        }
        if hit {
            proof {
                lemma_conflict_prefix(allowed@, blocked@, i + 1);
            }
            return Some(i);
        }
        i = i + 1;
    }
    proof {
        assert(blocked@.take(blocked@.len() as int) =~= blocked@);
    }
    None
}

impl AgentFileConfig {
    /// A configuration from its parsed frontmatter and body: the body trimmed,
    /// no source file.
    pub fn from_parts(frontmatter: AgentFileFrontmatter, content: &str) -> (r: Self)
        ensures
            r.frontmatter == frontmatter,
            r.content@ == trim(content@),
            r.source_path is None,
    {
        AgentFileConfig { frontmatter, content: trim_string(content), source_path: None }
    }

    /// An empty configuration: default frontmatter, no body, no source.
    pub fn empty() -> (r: Self)
        ensures
            empty_frontmatter(r.frontmatter),
            r.content@.len() == 0,
            r.source_path is None,
    {
        AgentFileConfig {
            frontmatter: AgentFileFrontmatter::default(),
            content: String::new(),
            source_path: None,
        }
    }

    /// The system prompt (the markdown body).
    pub fn system_prompt(&self) -> (r: &str)
        ensures
            r@ == self.content@,
    {
        self.content.as_str()
    }

    /// The agent's name.
    pub fn name(&self) -> (r: Option<&str>)
        ensures
            match self.frontmatter.name {
                Some(n) => r matches Some(x) && x@ == n@,
                None => r is None,
            },
    {
        match &self.frontmatter.name {
            Some(n) => Some(n.as_str()),
            None => None,
        }
    }

    /// The configuration this one extends.
    pub fn extends(&self) -> (r: Option<&str>)
        ensures
            match self.frontmatter.extends {
                Some(n) => r matches Some(x) && x@ == n@,
                None => r is None,
            },
    {
        match &self.frontmatter.extends {
            Some(n) => Some(n.as_str()),
            None => None,
        }
    }

    /// Check that no tool and no directory is both allowed and blocked.
    pub fn validate(&self) -> (r: Result<(), AgentFileConfigError>)
        ensures
            match validation_failure(self.frontmatter) {
                Some(m) => r matches Err(AgentFileConfigError::Validation(e)) && e@ == m,
                None => r is Ok,
            },
    {
        if let Some(tools) = &self.frontmatter.tools {
            if let Some(i) = find_conflict(&tools.allowed, &tools.blocked, false) {
                let mut m = to_owned("Tool '");
                push_str(&mut m, tools.blocked[i].as_str());
                push_str(&mut m, "' is both allowed and blocked");
                return Err(AgentFileConfigError::Validation(m));
            }
        }
        if let Some(perms) = &self.frontmatter.permissions {
            if let Some(i) = find_conflict(
                &perms.allowed_directories,
                &perms.blocked_directories,
                true,
            ) {
                let mut m = to_owned("Directory '");
                push_str(&mut m, perms.blocked_directories[i].as_str());
                push_str(&mut m, "' is both allowed and blocked");
                return Err(AgentFileConfigError::Validation(m));
            }
        }
        Ok(())
    }
}

/// `a` followed by each path of `add` that names no path it holds yet.
pub open spec fn union_paths(a: Seq<String>, add: Seq<String>) -> Seq<String>
    decreases add.len(),
{
    if add.len() == 0 {
        a
    } else {
        let m = union_paths(a, add.drop_last());
        if exists|i: int| 0 <= i < m.len() && same_path(#[trigger] m[i]@, add.last()@) {
            m
        } else {
            m.push(add.last())
        }
    }
}

/// `m` maps each key to the value of `add`'s first entry with that key, and
/// each other key to `base`'s value.
pub open spec fn entries_merged<V>(base: Seq<(String, V)>, add: Seq<(String, V)>, m: Seq<(String, V)>) -> bool {
    forall|k: Seq<char>|
        #[trigger] lookup(m, k) == if has_key(add, k) {
            lookup(add, k)
        } else {
            lookup(base, k)
        }
}

/// A keyed map merged from an optional parent and an optional child: absent
/// when both are, the one present when only one is, otherwise the child's
/// entries over the parent's.
pub open spec fn map_merged<V>(
    p: Option<Vec<(String, V)>>,
    c: Option<Vec<(String, V)>>,
    m: Option<Vec<(String, V)>>,
) -> bool {
    match (p, c) {
        (None, None) => m is None,
        (Some(x), None) => m == Some(x),
        (None, Some(y)) => m == Some(y),
        (Some(x), Some(y)) => m matches Some(z) && entries_merged(x@, y@, z@),
    }
}

/// Tool configurations merged: the child's allow list when it has one, the
/// union of the block lists, and the child's tool settings over the parent's.
pub open spec fn tools_merged(p: Option<ToolsConfig>, c: Option<ToolsConfig>, m: Option<ToolsConfig>) -> bool {
    match (p, c) {
        (None, None) => m is None,
        (Some(x), None) => m == Some(x),
        (None, Some(y)) => m == Some(y),
        (Some(x), Some(y)) => m matches Some(t) && {
            &&& t.allowed@ == if y.allowed@.len() > 0 {
                y.allowed@
            } else {
                x.allowed@
            }
            &&& t.blocked@ == union_strings(x.blocked@, y.blocked@)
            &&& match y.config {
                Some(yc) => t.config matches Some(tc) && entries_merged(
                    match x.config {
                        Some(xc) => xc@,
                        None => seq![],
                    },
                    yc@,
                    tc@,
                ),
                None => t.config == x.config,
            }
        },
    }
}

/// Permission configurations merged: the child's mode when it has one, and
/// the unions of the directory and command lists.
pub open spec fn permissions_merged(
    p: Option<PermissionsConfig>,
    c: Option<PermissionsConfig>,
    m: Option<PermissionsConfig>,
) -> bool {
    match (p, c) {
        (None, None) => m is None,
        (Some(x), None) => m == Some(x),
        (None, Some(y)) => m == Some(y),
        (Some(x), Some(y)) => m matches Some(t) && {
            &&& t.mode == if y.mode is Some {
                y.mode
            } else {
                x.mode
            }
            &&& t.allowed_directories@ == union_paths(
                x.allowed_directories@,
                y.allowed_directories@,
            )
            &&& t.blocked_directories@ == union_paths(
                x.blocked_directories@,
                y.blocked_directories@,
            )
            &&& t.allowed_commands@ == union_strings(x.allowed_commands@, y.allowed_commands@)
            &&& t.blocked_commands@ == union_strings(x.blocked_commands@, y.blocked_commands@)
        },
    }
}

/// The child's value when it has one, else the parent's.
pub open spec fn either<T>(child: Option<T>, parent: Option<T>) -> Option<T> {
    match child {
        Some(x) => Some(x),
        None => parent,
    }
}

/// Compaction settings merged field by field, the child's over the parent's.
pub open spec fn compaction_merged(p: Option<CompactionDef>, c: Option<CompactionDef>) -> Option<CompactionDef> {
    match (p, c) {
        (None, None) => None,
        (Some(x), None) => Some(x),
        (None, Some(y)) => Some(y),
        (Some(x), Some(y)) => Some(
            CompactionDef {
                enabled: either(y.enabled, x.enabled),
                max_context_tokens: either(y.max_context_tokens, x.max_context_tokens),
                min_messages_to_keep: either(y.min_messages_to_keep, x.min_messages_to_keep),
                target_tokens: either(y.target_tokens, x.target_tokens),
            },
        ),
    }
}

/// `m` is child `c` merged into parent `p`: each scalar setting the child's
/// when set, else the parent's; no `extends`; lists and maps merged as above;
/// the bodies joined by a blank line; the child's source path.
pub open spec fn merge_of(p: AgentFileConfig, c: AgentFileConfig, m: AgentFileConfig) -> bool {
    let pf = p.frontmatter;
    let cf = c.frontmatter;
    let mf = m.frontmatter;
    &&& mf.name == either(cf.name, pf.name)
    &&& mf.description == either(cf.description, pf.description)
    &&& mf.model == either(cf.model, pf.model)
    &&& mf.extends is None
    &&& tools_merged(pf.tools, cf.tools, mf.tools)
    &&& permissions_merged(pf.permissions, cf.permissions, mf.permissions)
    &&& map_merged(pf.mcp_servers, cf.mcp_servers, mf.mcp_servers)
    &&& map_merged(pf.agents, cf.agents, mf.agents)
    &&& mf.max_turns == either(cf.max_turns, pf.max_turns)
    &&& mf.max_budget_usd_bits == either(cf.max_budget_usd_bits, pf.max_budget_usd_bits)
    &&& mf.enable_thinking == either(cf.enable_thinking, pf.enable_thinking)
    &&& mf.api_timeout_secs == either(cf.api_timeout_secs, pf.api_timeout_secs)
    &&& mf.tool_timeout_secs == either(cf.tool_timeout_secs, pf.tool_timeout_secs)
    &&& mf.compaction == compaction_merged(pf.compaction, cf.compaction)
    &&& map_merged(pf.metadata, cf.metadata, mf.metadata)
    &&& m.content@ == if c.content@.len() == 0 {
        p.content@
    } else if p.content@.len() == 0 {
        c.content@
    } else {
        p.content@ + "\n\n"@ + c.content@
    }
    &&& m.source_path == c.source_path
}

/// The child's value when it has one, else the parent's.
fn pick<T>(child: Option<T>, parent: Option<T>) -> (r: Option<T>)
    ensures
        r == either(child, parent),
{
    match child {
        Some(x) => Some(x),
        None => parent,
    }
}

/// Appends each string of `add` that `a` does not hold yet.
fn union_into(a: &mut Vec<String>, add: &Vec<String>)
    ensures
        final(a)@ == union_strings(old(a)@, add@),
{
    let ghost start = a@;
    let mut i: usize = 0;
    proof {
        assert(add@.take(0) =~= Seq::<String>::empty());
    }
    while i < add.len()
        invariant
            0 <= i <= add@.len(),
            a@ == union_strings(start, add@.take(i as int)),
        decreases add.len() - i,
    {
        proof {
            let t = add@.take(i + 1);
            assert(t.drop_last() =~= add@.take(i as int));
            assert(t.last() == add@[i as int]);
        }
        if !contains_string(a, add[i].as_str()) {
            a.push(add[i].clone());
        }
        proof {
            let m = union_strings(start, add@.take(i as int));
            assert(views_of(m).contains(add@[i as int]@) == exists|j: int|
                0 <= j < m.len() && (#[trigger] m[j])@ == add@[i as int]@) by {
                if views_of(m).contains(add@[i as int]@) {
                    let j = choose|j: int| 0 <= j < views_of(m).len() && views_of(m)[j] == add@[i as int]@;
                    assert(m[j]@ == add@[i as int]@);
                }
                if exists|j: int| 0 <= j < m.len() && (#[trigger] m[j])@ == add@[i as int]@ {
                    let j = choose|j: int| 0 <= j < m.len() && (#[trigger] m[j])@ == add@[i as int]@;
                    assert(views_of(m)[j] == add@[i as int]@);
                }
            }
        }
        i = i + 1;
    }
    proof {
        assert(add@.take(add@.len() as int) =~= add@);
    }
}

/// Whether `a` holds a path naming the same path as `p`.
fn holds_path(a: &Vec<String>, p: &str) -> (r: bool)
    ensures
        r == exists|i: int| 0 <= i < a@.len() && same_path(#[trigger] a@[i]@, p@),
{
    let mut i: usize = 0;
    while i < a.len()
        invariant
            0 <= i <= a@.len(),
            forall|j: int| 0 <= j < i ==> !same_path(#[trigger] a@[j]@, p@),
        decreases a.len() - i,
    {
        if paths_equal(a[i].as_str(), p) {
            return true;
        }
        i = i + 1;
    }
    false
}

/// Appends each path of `add` that names no path `a` holds yet.
fn union_paths_into(a: &mut Vec<String>, add: &Vec<String>)
    ensures
        final(a)@ == union_paths(old(a)@, add@),
{
    let ghost start = a@;
    let mut i: usize = 0;
    proof {
        assert(add@.take(0) =~= Seq::<String>::empty());
    }
    while i < add.len()
        invariant
            0 <= i <= add@.len(),
            a@ == union_paths(start, add@.take(i as int)),
        decreases add.len() - i,
    {
        proof {
            let t = add@.take(i + 1);
            assert(t.drop_last() =~= add@.take(i as int));
            assert(t.last() == add@[i as int]);
        }
        if !holds_path(a, add[i].as_str()) {
            a.push(add[i].clone());
        }
        i = i + 1;
    }
    proof {
        assert(add@.take(add@.len() as int) =~= add@);
    }
}

/// The lookup in a list is that of its first entry or of the rest.
proof fn lemma_lookup_first<V>(v: Seq<(String, V)>, k: Seq<char>)
    requires
        v.len() > 0,
    ensures
        has_key(v, k) == (v[0].0@ == k || has_key(v.drop_first(), k)),
        lookup(v, k) == if v[0].0@ == k {
            Some(v[0].1)
        } else {
            lookup(v.drop_first(), k)
        },
{
    let t = v.drop_first();
    if v[0].0@ == k {
        assert(is_first_key(v, k, 0));
        lemma_first_key(v, k, 0);
    } else {
        if has_key(t, k) {
            lemma_has_first_key(t, k);
            let i = choose|i: int| is_first_key(t, k, i);
            assert forall|j: int| 0 <= j < i + 1 implies (#[trigger] v[j]).0@ != k by {
                if j > 0 {
                    assert(v[j] == t[j - 1]);
                }
            }
            assert(is_first_key(v, k, i + 1));
            lemma_first_key(v, k, i + 1);
            lemma_first_key(t, k, i);
        }
        if has_key(v, k) {
            let j = choose|j: int| 0 <= j < v.len() && (#[trigger] v[j]).0@ == k;
            assert(t[j - 1].0@ == k);
        }
    }
}

/// The child's entries stored over the parent's, the child's first entry for
/// a key winning.
fn merge_entries<V>(base: Vec<(String, V)>, add: Vec<(String, V)>) -> (r: Vec<(String, V)>)
    ensures
        entries_merged(base@, add@, r@),
{
    let ghost orig = add@;
    let ghost start = base@;
    let mut out = base;
    let mut rest = add;
    proof {
        assert(orig.skip(orig.len() as int) =~= Seq::<(String, V)>::empty());
    }
    while rest.len() > 0
        invariant
            rest@ == orig.take(rest@.len() as int),
            rest@.len() <= orig.len(),
            entries_merged(start, orig.skip(rest@.len() as int), out@),
        decreases rest.len(),
    {
        let ghost n = rest@.len() as int;
        let (k, v) = rest.pop().unwrap();
        let ghost done = orig.skip(n - 1);
        put(&mut out, k.as_str(), v);
        proof {
            assert(done[0] == orig[n - 1]);
            assert(done.drop_first() =~= orig.skip(n));
            assert(rest@ =~= orig.take(n - 1));
            assert forall|q: Seq<char>| #[trigger] lookup(out@, q) == if has_key(done, q) {
                lookup(done, q)
            } else {
                lookup(start, q)
            } by {
                lemma_lookup_first(done, q);
            }
        }
    }
    proof {
        assert(orig.skip(0) =~= orig);
    }
    out
}

/// Two optional keyed maps merged.
fn merge_maps<V>(parent: Option<Vec<(String, V)>>, child: Option<Vec<(String, V)>>) -> (r: Option<
    Vec<(String, V)>,
>)
    ensures
        map_merged(parent, child, r),
{
    match (parent, child) {
        (None, None) => None,
        (Some(p), None) => Some(p),
        (None, Some(c)) => Some(c),
        (Some(p), Some(c)) => Some(merge_entries(p, c)),
    }
}

/// Two optional tool configurations merged.
fn merge_tools(parent: Option<ToolsConfig>, child: Option<ToolsConfig>) -> (r: Option<ToolsConfig>)
    ensures
        tools_merged(parent, child, r),
{
    match (parent, child) {
        (None, None) => None,
        (Some(p), None) => Some(p),
        (None, Some(c)) => Some(c),
        (Some(p), Some(c)) => {
            let ToolsConfig { allowed: p_allowed, blocked: p_blocked, config: p_config } = p;
            let ToolsConfig { allowed: c_allowed, blocked: c_blocked, config: c_config } = c;
            let allowed = if c_allowed.len() > 0 {
                c_allowed
            } else {
                p_allowed
            };
            let mut blocked = p_blocked;
            union_into(&mut blocked, &c_blocked);
            let config = match c_config {
                Some(cc) => {
                    let base = match p_config {
                        Some(pc) => pc,
                        None => Vec::new(),
                    };
                    Some(merge_entries(base, cc))
                },
                None => p_config,
            };
            Some(ToolsConfig { allowed, blocked, config })
        },
    }
}

/// Two optional permission configurations merged.
fn merge_permissions(parent: Option<PermissionsConfig>, child: Option<PermissionsConfig>) -> (r:
    Option<PermissionsConfig>)
    ensures
        permissions_merged(parent, child, r),
{
    match (parent, child) {
        (None, None) => None,
        (Some(p), None) => Some(p),
        (None, Some(c)) => Some(c),
        (Some(p), Some(c)) => {
            let mut merged = p;
            if c.mode.is_some() {
                merged.mode = c.mode;
            }
            union_paths_into(&mut merged.allowed_directories, &c.allowed_directories);
            union_paths_into(&mut merged.blocked_directories, &c.blocked_directories);
            union_into(&mut merged.allowed_commands, &c.allowed_commands);
            union_into(&mut merged.blocked_commands, &c.blocked_commands);
            Some(merged)
        },
    }
}

/// Two optional compaction settings merged.
fn merge_compaction(parent: Option<CompactionDef>, child: Option<CompactionDef>) -> (r: Option<
    CompactionDef,
>)
    ensures
        r == compaction_merged(parent, child),
{
    match (parent, child) {
        (None, None) => None,
        (Some(p), None) => Some(p),
        (None, Some(c)) => Some(c),
        (Some(p), Some(c)) => Some(
            CompactionDef {
                enabled: pick(c.enabled, p.enabled),
                max_context_tokens: pick(c.max_context_tokens, p.max_context_tokens),
                min_messages_to_keep: pick(c.min_messages_to_keep, p.min_messages_to_keep),
                target_tokens: pick(c.target_tokens, p.target_tokens),
            },
        ),
    }
}

/// Merge child configuration `child` into parent configuration `parent`.
pub fn merge_configs(parent: AgentFileConfig, child: AgentFileConfig) -> (r: AgentFileConfig)
    ensures
        merge_of(parent, child, r),
{
    let ghost p0 = parent;
    let ghost c0 = child;
    let AgentFileConfig { frontmatter: pf, content: p_content, source_path: _ } = parent;
    let AgentFileConfig { frontmatter: cf, content: c_content, source_path: c_source } = child;
    let frontmatter = AgentFileFrontmatter {
        name: pick(cf.name, pf.name),
        description: pick(cf.description, pf.description),
        model: pick(cf.model, pf.model),
        extends: None,
        tools: merge_tools(pf.tools, cf.tools),
        permissions: merge_permissions(pf.permissions, cf.permissions),
        mcp_servers: merge_maps(pf.mcp_servers, cf.mcp_servers),
        agents: merge_maps(pf.agents, cf.agents),
        max_turns: pick(cf.max_turns, pf.max_turns),
        max_budget_usd_bits: pick(cf.max_budget_usd_bits, pf.max_budget_usd_bits),
        enable_thinking: pick(cf.enable_thinking, pf.enable_thinking),
        api_timeout_secs: pick(cf.api_timeout_secs, pf.api_timeout_secs),
        tool_timeout_secs: pick(cf.tool_timeout_secs, pf.tool_timeout_secs),
        compaction: merge_compaction(pf.compaction, cf.compaction),
        metadata: merge_maps(pf.metadata, cf.metadata),
    };
    let mut content = p_content;
    if !c_content.as_str().is_empty() {
        if !content.as_str().is_empty() {
            push_str(&mut content, "\n\n");
        }
        push_str(&mut content, c_content.as_str());
    }
    AgentFileConfig { frontmatter, content, source_path: c_source }
}

/// The configurations merged in order from an empty one, each later one over
/// the ones before it.
pub open spec fn merged_in_order(cs: Seq<AgentFileConfig>, m: AgentFileConfig) -> bool
    decreases cs.len(),
{
    if cs.len() == 0 {
        empty_frontmatter(m.frontmatter) && m.content@.len() == 0 && m.source_path is None
    } else {
        exists|prev: AgentFileConfig|
            #![trigger merge_of(prev, cs.last(), m)]
            merged_in_order(cs.drop_last(), prev) && merge_of(prev, cs.last(), m)
    }
}

/// Merge discovered configurations in order: later ones override earlier
/// ones.
pub fn merge_discovered_configs(configs: Vec<AgentFileConfig>) -> (r: Result<
    AgentFileConfig,
    AgentFileConfigError,
>)
    ensures
        r matches Ok(m) && merged_in_order(configs@, m),
{
    let ghost all = configs@;
    let mut merged = AgentFileConfig::empty();
    let mut rest = configs;
    let total: usize = rest.len();
    let mut i: usize = 0;
    proof {
        assert(all.take(0) =~= Seq::<AgentFileConfig>::empty());
        assert(all.skip(0) =~= all);
    }
    while rest.len() > 0
        invariant
            0 <= i <= all.len(),
            all.len() == total,
            i + rest@.len() == all.len(),
            rest@ == all.skip(i as int),
            merged_in_order(all.take(i as int), merged),
        decreases rest.len(),
    {
        let next = rest.remove(0);
        let ghost prev = merged;
        merged = merge_configs(merged, next);
        proof {
            let t = all.take(i + 1);
            assert(t.drop_last() =~= all.take(i as int));
            assert(t.last() == next);
            assert(rest@ =~= all.skip(i + 1));
            assert(merge_of(prev, t.last(), merged));
        }
        i = i + 1;
    }
    proof {
        assert(all.take(i as int) =~= all);
    }
    Ok(merged)
}

/// The name a configuration goes by in an inheritance chain.
pub open spec fn config_name(c: AgentFileConfig) -> Seq<char> {
    match c.frontmatter.name {
        Some(n) => n@,
        None => "anonymous"@,
    }
}

/// `r` is the first configuration of `cs` with its ancestors `cs[1..]`
/// merged in, the furthest ancestor first.
pub open spec fn resolved_chain(cs: Seq<AgentFileConfig>, r: AgentFileConfig) -> bool
    decreases cs.len(),
{
    if cs.len() == 0 {
        false
    } else if cs.len() == 1 {
        r == cs[0]
    } else {
        exists|m: AgentFileConfig|
            #![trigger merge_of(m, cs[0], r)]
            resolved_chain(cs.drop_first(), m) && merge_of(m, cs[0], r)
    }
}

/// The debug text of a list of strings (`{:?}` of a `Vec<String>`).
pub uninterp spec fn debug_list(items: Seq<Seq<char>>) -> Seq<char>;

/// `format!("{:?}", v)`: the text is the named `debug_list`.
#[verifier::external_body]
fn debug_strings(v: &Vec<String>) -> (r: String)
    ensures
        r@ == debug_list(views_of(v@)),
{
    format!("{:?}", v)
}

/// What the resolution of an inheritance chain needs next.
#[derive(Debug)]
pub enum ResolutionStep {
    /// The configuration with this name or path must be loaded and added.
    NeedParent(String),
    /// The chain is resolved into this configuration.
    Done(AgentFileConfig),
    /// The chain cannot be resolved.
    Failed(AgentFileConfigError),
}

/// The resolution of one configuration's inheritance chain, child first.
/// The caller adds the configuration, then each parent it is asked for.
pub struct InheritanceResolution {
    chain: Vec<String>,
    configs: Vec<AgentFileConfig>,
}

impl InheritanceResolution {
    /// The names seen so far, child first.
    pub closed spec fn names(&self) -> Seq<Seq<char>> {
        views_of(self.chain@)
    }

    /// The configurations added so far, child first.
    pub closed spec fn added(&self) -> Seq<AgentFileConfig> {
        self.configs@
    }

    /// Each added configuration goes by the name recorded for it, and no name
    /// is recorded twice.
    pub open spec fn wf(&self) -> bool {
        &&& self.names().len() == self.added().len()
        &&& forall|i: int| 0 <= i < self.added().len() ==> #[trigger] self.names()[i] == config_name(
            self.added()[i],
        )
        &&& forall|i: int, j: int|
            0 <= i < j < self.names().len() ==> #[trigger] self.names()[i] != #[trigger] self.names()[j]
    }

    /// A resolution with nothing added.
    pub fn new() -> (r: Self)
        ensures
            r.wf(),
            r.names().len() == 0,
            r.added().len() == 0,
    {
        let r = InheritanceResolution { chain: Vec::new(), configs: Vec::new() };
        proof {
            assert(r.names() =~= Seq::<Seq<char>>::empty());
        }
        r
    }

    /// The names seen so far, child first.
    pub fn chain(&self) -> (r: &Vec<String>)
        ensures
            views_of(r@) == self.names(),
    {
        &self.chain
    }

    /// Add the next configuration of the chain (first the child, then each
    /// parent asked for).  A name already in the chain is a cycle; a
    /// configuration that extends another asks for it; one that extends none
    /// ends the chain, which is merged from its end, and the resolution starts
    /// over empty.
    pub fn add(&mut self, config: AgentFileConfig) -> (step: ResolutionStep)
        requires
            old(self).wf(),
        ensures
            final(self).wf(),
            ({
                let name = config_name(config);
                if old(self).names().contains(name) {
                    &&& step matches ResolutionStep::Failed(
                        AgentFileConfigError::CircularInheritance(m),
                    )
                    &&& m@ == "Circular inheritance detected: "@ + debug_list(old(self).names())
                        + " -> "@ + name
                    &&& final(self).names() == old(self).names()
                    &&& final(self).added() == old(self).added()
                } else {
                    match config.frontmatter.extends {
                        Some(p) => {
                            &&& step matches ResolutionStep::NeedParent(q) && q@ == p@
                            &&& final(self).names() == old(self).names().push(name)
                            &&& final(self).added() == old(self).added().push(config)
                        },
                        None => {
                            &&& step matches ResolutionStep::Done(r) && resolved_chain(
                                old(self).added().push(config),
                                r,
                            )
                            &&& final(self).names().len() == 0
                            &&& final(self).added().len() == 0
                        },
                    }
                }
            }),
    {
        let ghost names0 = self.names();
        let name = match &config.frontmatter.name {
            Some(n) => n.clone(),
            None => to_owned("anonymous"),
        };
        if contains_string(&self.chain, name.as_str()) {
            proof {
                let i = choose|i: int| 0 <= i < self.chain@.len() && (#[trigger] self.chain@[i])@
                    == name@;
                assert(names0[i] == name@);
            }
            let mut m = to_owned("Circular inheritance detected: ");
            let listed = debug_strings(&self.chain);
            push_str(&mut m, listed.as_str());
            push_str(&mut m, " -> ");
            push_str(&mut m, name.as_str());
            return ResolutionStep::Failed(AgentFileConfigError::CircularInheritance(m));
        }
        proof {
            if names0.contains(name@) {
                let i = choose|i: int| 0 <= i < names0.len() && names0[i] == name@;
                assert(self.chain@[i]@ == name@);
            }
        }
        let parent = match &config.frontmatter.extends {
            Some(p) => Some(p.clone()),
            None => None,
        };
        let ghost before_chain = self.chain@;
        self.chain.push(name);
        proof {
            assert(views_of(self.chain@) =~= names0.push(name@));
        }
        self.configs.push(config);
        match parent {
            Some(p) => ResolutionStep::NeedParent(p),
            None => {
                let ghost all = self.configs@;
                let mut result = self.configs.pop().unwrap();
                proof {
                    assert(all.skip(all.len() - 1) =~= seq![result]);
                }
                while self.configs.len() > 0
                    invariant
                        self.configs@ == all.take(self.configs@.len() as int),
                        self.configs@.len() < all.len(),
                        resolved_chain(all.skip(self.configs@.len() as int), result),
                    decreases self.configs.len(),
                {
                    let ghost n = self.configs@.len() as int;
                    let ghost prev = result;
                    let child = self.configs.pop().unwrap();
                    result = merge_configs(result, child);
                    proof {
                        let s = all.skip(n - 1);
                        assert(s[0] == child);
                        assert(s.drop_first() =~= all.skip(n));
                        assert(self.configs@ =~= all.take(n - 1));
                        assert(merge_of(prev, s[0], result));
                    }
                }
                proof {
                    assert(all.skip(0) =~= all);
                }
                self.chain = Vec::new();
                proof {
                    assert(self.names() =~= Seq::<Seq<char>>::empty());
                }
                ResolutionStep::Done(result)
            },
        }
    }
}

/// Keeps named configurations for inheritance and the directories in which
/// parent configurations are searched.  Configurations are kept by name.
pub struct AgentFileConfigLoader {
    configs: Vec<(String, AgentFileConfig)>,
    search_paths: Vec<PathBuf>,
}

impl AgentFileConfigLoader {
    /// The configurations kept, by name.
    pub closed spec fn registered_configs(&self) -> Seq<(String, AgentFileConfig)> {
        self.configs@
    }

    /// The number of search paths.
    pub closed spec fn search_path_count(&self) -> nat {
        self.search_paths@.len()
    }

    /// A loader with no configuration and no search path.
    pub fn new() -> (r: Self)
        ensures
            r.registered_configs().len() == 0,
            r.search_path_count() == 0,
    {
        AgentFileConfigLoader { configs: Vec::new(), search_paths: Vec::new() }
    }

    /// Add a directory in which parent configurations are searched.
    pub fn add_search_path<P: Into<PathBuf>>(&mut self, path: P)
        ensures
            final(self).registered_configs() == old(self).registered_configs(),
            final(self).search_path_count() == old(self).search_path_count() + 1,
    {
        self.search_paths.push(crate::context::integration::into_path_buf(path));
    }

    /// The search paths, in the order they were added.
    pub fn search_paths(&self) -> (r: &Vec<PathBuf>)
        ensures
            r@.len() == self.search_path_count(),
    {
        &self.search_paths
    }

    /// Keep a configuration under a name, replacing one of the same name.
    pub fn register(&mut self, name: &str, config: AgentFileConfig)
        ensures
            lookup(
                final(self).registered_configs(),
                name@,
            ) == Some(config),
            forall|k: Seq<char>|
                k != name@ ==> lookup(final(self).registered_configs(), k) == lookup(
                    old(self).registered_configs(),
                    k,
                ),
            final(self).search_path_count() == old(self).search_path_count(),
    {
        let n: String = to_owned(name);
        put(&mut self.configs, n.as_str(), config);
    }

    /// The configuration kept under a name.
    pub fn registered(&self, name: &str) -> (r: Option<&AgentFileConfig>)
        ensures
            match r {
                Some(c) => lookup(self.registered_configs(), name@) == Some(*c),
                None => lookup(self.registered_configs(), name@) is None,
            },
    {
        get_ref(&self.configs, name)
    }
}

impl Default for AgentFileConfigLoader {
    fn default() -> (r: Self)
        ensures
            r.registered_configs().len() == 0,
            r.search_path_count() == 0,
    {
        Self::new()
    }
}

/// A configuration that extends none resolves to itself.
pub proof fn lemma_root_resolves_to_itself(c: AgentFileConfig, r: AgentFileConfig)
    requires
        resolved_chain(seq![c], r),
    ensures
        r == c,
{
}

/// Merging never unblocks a tool: every tool the parent or the child blocks
/// is blocked in the merge.
pub proof fn lemma_merge_keeps_blocked_tools(
    p: AgentFileConfig,
    c: AgentFileConfig,
    m: AgentFileConfig,
    tool: Seq<char>,
)
    requires
        merge_of(p, c, m),
        (p.frontmatter.tools matches Some(t) && views_of(t.blocked@).contains(tool)) || (
        c.frontmatter.tools matches Some(t) && views_of(t.blocked@).contains(tool)),
    ensures
        m.frontmatter.tools matches Some(t) && views_of(t.blocked@).contains(tool),
{
    match (p.frontmatter.tools, c.frontmatter.tools) {
        (Some(x), Some(y)) => {
            crate::context::subagent::lemma_union_strings_contains(x.blocked@, y.blocked@, tool);
        },
        _ => {},
    }
}

/// Scalar settings the child sets win over the parent's, and those it leaves
/// unset come from the parent.
pub proof fn lemma_child_overrides_parent(p: AgentFileConfig, c: AgentFileConfig, m: AgentFileConfig)
    requires
        merge_of(p, c, m),
    ensures
        c.frontmatter.max_turns is Some ==> m.frontmatter.max_turns == c.frontmatter.max_turns,
        c.frontmatter.max_turns is None ==> m.frontmatter.max_turns == p.frontmatter.max_turns,
        c.frontmatter.model is Some ==> m.frontmatter.model == c.frontmatter.model,
        c.frontmatter.model is None ==> m.frontmatter.model == p.frontmatter.model,
        m.frontmatter.extends is None,
{
}

} // verus!
