//! System prompt generation from a resolved context: section selection,
//! ordering, headers, per-section and total token budgets.
use vstd::prelude::*;


use crate::context::resolver::{LoadedSkill, PermissionMode, ResolvedContext};
use crate::sort::{sort_by_key, stable_sort_by_key};
use crate::text::{
    byte_len, byte_prefix, char_index_at_byte, chars_of, contains, ends_with, is_boundary, join,
    is_ws, occurs_at, push_str, starts_with, str_byte_len, str_starts_with, string_from_range, to_owned, trim,
    trim_end, trim_end_string, trim_string,
};

verus! {

/// Sections that can be included in the system prompt.
#[derive(Debug, Clone, Copy, PartialEq, Eq, Hash, Structural)]
pub enum PromptSection {
    /// Platform rules (L1) - always first, cannot be omitted.
    Platform,
    /// Organization conventions (L2).
    Organization,
    /// User preferences (L3).
    User,
    /// Memory context.
    Memory,
    /// Session context (L4).
    Session,
    /// Skill descriptions (first layer of two-layer loading).
    SkillDescriptions,
    /// Loaded skill content (second layer of two-layer loading).
    LoadedSkills,
    /// Task instructions (L5).
    Task,
    /// SubAgent context (L6).
    SubAgent,
    /// Tool permissions section.
    ToolPermissions,
    /// Custom injected section.
    Custom(u8),
}

impl PromptSection {
    /// Default ordering priority (lower = earlier in the prompt).
    pub open spec fn order_spec(self) -> nat {
        match self {
            PromptSection::Platform => 0,
            PromptSection::Organization => 1,
            PromptSection::User => 2,
            PromptSection::Memory => 3,
            PromptSection::Session => 4,
            PromptSection::SkillDescriptions => 5,
            PromptSection::LoadedSkills => 6,
            PromptSection::Task => 7,
            PromptSection::SubAgent => 8,
            PromptSection::ToolPermissions => 9,
            PromptSection::Custom(n) => (100 + n) as nat,
        }
    }

    /// The default order fits in a byte: custom ids go up to 155.
    pub open spec fn order_fits(self) -> bool {
        match self {
            PromptSection::Custom(n) => n <= 155,
            _ => true,
        }
    }

    /// Markdown header of the section.
    pub open spec fn header_spec(self) -> Seq<char> {
        match self {
            PromptSection::Platform => "# Platform Rules"@,
            PromptSection::Organization => "# Organization Conventions"@,
            PromptSection::User => "# User Preferences"@,
            PromptSection::Memory => "# Memory"@,
            PromptSection::Session => "# Session Context"@,
            PromptSection::SkillDescriptions => "# Available Skills"@,
            PromptSection::LoadedSkills => "# Active Skills"@,
            PromptSection::Task => "# Current Task"@,
            PromptSection::SubAgent => "# SubAgent Configuration"@,
            PromptSection::ToolPermissions => "# Tool Permissions"@,
            PromptSection::Custom(_) => "# Custom Section"@,
        }
    }

    /// Default ordering priority (lower = earlier in prompt).
    pub fn default_order(&self) -> (r: u8)
        requires
            self.order_fits(),
        ensures
            r == self.order_spec(),
    {
        match self {
            PromptSection::Platform => 0,
            PromptSection::Organization => 1,
            PromptSection::User => 2,
            PromptSection::Memory => 3,
            PromptSection::Session => 4,
            PromptSection::SkillDescriptions => 5,
            PromptSection::LoadedSkills => 6,
            PromptSection::Task => 7,
            PromptSection::SubAgent => 8,
            PromptSection::ToolPermissions => 9,
            PromptSection::Custom(n) => 100 + *n,
        }
    }

    /// Section header for markdown formatting.
    pub fn header(&self) -> (r: &'static str)
        ensures
            r@ == self.header_spec(),
    {
        match self {
            PromptSection::Platform => "# Platform Rules",
            PromptSection::Organization => "# Organization Conventions",
            PromptSection::User => "# User Preferences",
            PromptSection::Memory => "# Memory",
            PromptSection::Session => "# Session Context",
            PromptSection::SkillDescriptions => "# Available Skills",
            PromptSection::LoadedSkills => "# Active Skills",
            PromptSection::Task => "# Current Task",
            PromptSection::SubAgent => "# SubAgent Configuration",
            PromptSection::ToolPermissions => "# Tool Permissions",
            PromptSection::Custom(_) => "# Custom Section",
        }
    }
}

/// The built-in sections come in a fixed order, all before custom sections.
pub proof fn lemma_default_order_layers()
    ensures
        PromptSection::Platform.order_spec() < PromptSection::Organization.order_spec(),
        PromptSection::Organization.order_spec() < PromptSection::User.order_spec(),
        PromptSection::User.order_spec() < PromptSection::Memory.order_spec(),
        PromptSection::Memory.order_spec() < PromptSection::Session.order_spec(),
        PromptSection::Session.order_spec() < PromptSection::SkillDescriptions.order_spec(),
        PromptSection::SkillDescriptions.order_spec() < PromptSection::LoadedSkills.order_spec(),
        PromptSection::LoadedSkills.order_spec() < PromptSection::Task.order_spec(),
        PromptSection::Task.order_spec() < PromptSection::SubAgent.order_spec(),
        PromptSection::SubAgent.order_spec() < PromptSection::ToolPermissions.order_spec(),
        forall|n: u8| PromptSection::ToolPermissions.order_spec() < #[trigger] PromptSection::Custom(n).order_spec(),
{
}

/// Configuration for prompt generation.
pub struct PromptConfig {
    /// Maximum tokens for the entire prompt (0 = unlimited).
    pub max_tokens: usize,
    /// Whether to include section headers.
    pub include_headers: bool,
    /// Whether to include the tool permission section.
    pub include_tool_permissions: bool,
    /// Custom section order (if None, use the default order).
    pub section_order: Option<Vec<PromptSection>>,
    /// Sections to skip.
    pub skip_sections: Vec<PromptSection>,
    /// Custom section content, one entry per id.
    pub custom_sections: Vec<(u8, String)>,
    /// Token budget per section, one entry per section.
    pub section_budgets: Vec<(PromptSection, usize)>,
}

impl PromptConfig {
    /// No total limit, no custom order, nothing skipped, no custom sections and
    /// no section budgets; headers and tool permissions as they may be.
    pub open spec fn is_plain(self) -> bool {
        &&& self.max_tokens == 0
        &&& self.section_order is None
        &&& self.skip_sections@.len() == 0
        &&& self.custom_sections@.len() == 0
        &&& self.section_budgets@.len() == 0
    }

    /// The default configuration: headers on, everything else off or empty.
    pub open spec fn is_default(self) -> bool {
        &&& self.max_tokens == 0
        &&& self.include_headers
        &&& !self.include_tool_permissions
        &&& self.section_order is None
        &&& self.skip_sections@.len() == 0
        &&& self.custom_sections@.len() == 0
        &&& self.section_budgets@.len() == 0
    }
}

impl Default for PromptConfig {
    fn default() -> (r: Self)
        ensures
            r.is_default(),
    {
        PromptConfig {
            max_tokens: 0,
            include_headers: true,
            include_tool_permissions: false,
            section_order: None,
            skip_sections: Vec::new(),
            custom_sections: Vec::new(),
            section_budgets: Vec::new(),
        }
    }
}

/// Marker appended where content was cut to fit a token budget.
pub open spec fn truncation_note() -> Seq<char> {
    "\n\n[... truncated for token limit ...]"@
}

/// Character index of the last newline in `s`, or -1.
pub open spec fn last_newline(s: Seq<char>) -> int
    decreases s.len(),
{
    if s.len() == 0 {
        -1
    } else if s.last() == '\n' {
        s.len() - 1
    } else {
        last_newline(s.drop_last())
    }
}

/// Content cut to `max_tokens * 4` bytes, at the last newline when there is one,
/// followed by the truncation note.
pub open spec fn truncate_spec(content: Seq<char>, max_tokens: nat) -> Seq<char> {
    let max_chars = max_tokens * 4;
    if byte_len(content) <= max_chars {
        content
    } else {
        let cut = byte_prefix(content, max_chars as int);
        let nl = last_newline(cut);
        if nl >= 0 {
            cut.take(nl) + truncation_note()
        } else {
            cut + truncation_note()
        }
    }
}

/// Truncation to `max_tokens` is possible without a panic: the byte budget fits a
/// `usize` and, when the content is longer, falls between two characters.
pub open spec fn can_truncate(content: Seq<char>, max_tokens: nat) -> bool {
    &&& max_tokens * 4 <= usize::MAX
    &&& byte_len(content) <= max_tokens * 4 || is_boundary(content, (max_tokens * 4) as int)
}

/// One loaded skill as rendered in the Active Skills section.
pub open spec fn skill_block(s: LoadedSkill) -> Seq<char> {
    "## "@ + s.name@ + " (Active)\n\n"@ + (if s.requires_browser {
        "> ⚠️ This skill requires browser access\n\n"@
    } else {
        seq![]
    }) + (if s.automation_tab {
        "> 🤖 This skill uses automation tab\n\n"@
    } else {
        seq![]
    }) + s.content@ + "\n\n---\n\n"@
}

/// All loaded skills, rendered one after another.
pub open spec fn skill_blocks(skills: Seq<LoadedSkill>) -> Seq<char>
    decreases skills.len(),
{
    if skills.len() == 0 {
        seq![]
    } else {
        skill_blocks(skills.drop_last()) + skill_block(skills.last())
    }
}

/// `s` with every trailing repetition of `p` removed (`trim_end_matches`).
pub open spec fn strip_suffixes(s: Seq<char>, p: Seq<char>) -> Seq<char>
    decreases s.len(),
{
    if p.len() > 0 && ends_with(s, p) {
        strip_suffixes(s.take(s.len() - p.len()), p)
    } else {
        s
    }
}

/// The Active Skills section body.
pub open spec fn loaded_skills_spec(skills: Seq<LoadedSkill>) -> Seq<char> {
    strip_suffixes(skill_blocks(skills), "\n---\n\n"@)
}

/// Name of a permission mode.
pub open spec fn mode_name(m: PermissionMode) -> Seq<char> {
    match m {
        PermissionMode::Normal => "Normal"@,
        PermissionMode::Elevated => "Elevated"@,
        PermissionMode::Restricted => "Restricted"@,
    }
}

/// Bullet lines of tool names with the given line ending.
pub open spec fn tool_lines(tools: Seq<String>, end: Seq<char>) -> Seq<char>
    decreases tools.len(),
{
    if tools.len() == 0 {
        seq![]
    } else {
        tool_lines(tools.drop_last(), end) + "- `"@ + tools.last()@ + end
    }
}

/// The Tool Permissions section body.
pub open spec fn tool_permissions_spec(ctx: ResolvedContext) -> Seq<char> {
    "**Permission Mode**: "@ + mode_name(ctx.permission_mode) + "\n\n"@ + (
    if ctx.allowed_tools@.len() > 0 {
        "**Allowed Tools**:\n"@ + tool_lines(ctx.allowed_tools@, "`\n"@) + "\n"@
    } else {
        seq![]
    }) + (if ctx.blocked_tools@.len() > 0 {
        "**Blocked Tools**:\n"@ + tool_lines(ctx.blocked_tools@, "` ❌\n"@)
    } else {
        seq![]
    })
}

/// Text found in `h` is found in `h` with anything put around it.
proof fn lemma_contains_within(a: Seq<char>, h: Seq<char>, c: Seq<char>, n: Seq<char>)
    requires
        contains(h, n),
    ensures
        contains(a + h + c, n),
{
    let i = choose|i: int| occurs_at(h, n, i);
    let j = a.len() + i;
    assert((a + h + c).subrange(j, j + n.len()) =~= h.subrange(i, i + n.len()));
    assert(occurs_at(a + h + c, n, j));
}

/// Where `x + y` is found, `x` is found.
proof fn lemma_contains_front(h: Seq<char>, x: Seq<char>, y: Seq<char>)
    requires
        contains(h, x + y),
    ensures
        contains(h, x),
{
    let i = choose|i: int| occurs_at(h, x + y, i);
    let w = h.subrange(i, i + (x + y).len());
    assert(w == x + y);
    assert(h.subrange(i, i + x.len()) =~= w.subrange(0, x.len() as int));
    assert((x + y).subrange(0, x.len() as int) =~= x);
    assert(occurs_at(h, x, i));
}

/// Every tool has its bullet line among the tool lines.
proof fn lemma_tool_line_listed(tools: Seq<String>, end: Seq<char>, i: int)
    requires
        0 <= i < tools.len(),
    ensures
        contains(tool_lines(tools, end), "- `"@ + tools[i]@ + end),
    decreases tools.len(),
{
    let p = tools.drop_last();
    let line = "- `"@ + tools.last()@ + end;
    assert(tool_lines(tools, end) =~= tool_lines(p, end) + line);
    if i == tools.len() - 1 {
        let e = Seq::<char>::empty();
        assert(occurs_at(line, line, 0)) by {
            assert(line.subrange(0, line.len() as int) =~= line);
        }
        lemma_contains_within(tool_lines(p, end), line, e, line);
        assert(tool_lines(p, end) + line + e =~= tool_lines(tools, end));
    } else {
        lemma_tool_line_listed(p, end, i);
        assert(p[i] == tools[i]);
        let e = Seq::<char>::empty();
        lemma_contains_within(e, tool_lines(p, end), line, "- `"@ + tools[i]@ + end);
        assert(e + tool_lines(p, end) + line =~= tool_lines(tools, end));
    }
}

/// The permissions section lists every blocked tool as a bullet marked
/// blocked, `- `t` ❌`, whatever the allow list and the permission mode.
pub proof fn lemma_blocked_tools_listed(ctx: ResolvedContext)
    ensures
        forall|i: int|
            0 <= i < ctx.blocked_tools@.len() ==> contains(
                tool_permissions_spec(ctx),
                "- `"@ + (#[trigger] ctx.blocked_tools@[i])@ + "` ❌"@,
            ),
{
    assert forall|i: int| 0 <= i < ctx.blocked_tools@.len() implies contains(
        tool_permissions_spec(ctx),
        "- `"@ + (#[trigger] ctx.blocked_tools@[i])@ + "` ❌"@,
    ) by {
        let t = ctx.blocked_tools@[i]@;
        let end = "` ❌\n"@;
        reveal_strlit("` ❌\n");
        reveal_strlit("` ❌");
        reveal_strlit("\n");
        assert(end =~= "` ❌"@ + "\n"@);
        lemma_tool_line_listed(ctx.blocked_tools@, end, i);
        let lines = tool_lines(ctx.blocked_tools@, end);
        let allowed = if ctx.allowed_tools@.len() > 0 {
            "**Allowed Tools**:\n"@ + tool_lines(ctx.allowed_tools@, "`\n"@) + "\n"@
        } else {
            seq![]
        };
        let front = "**Permission Mode**: "@ + mode_name(ctx.permission_mode) + "\n\n"@ + allowed
            + "**Blocked Tools**:\n"@;
        lemma_contains_within(front, lines, Seq::<char>::empty(), "- `"@ + t + end);
        assert(front + lines + Seq::<char>::empty() =~= tool_permissions_spec(ctx));
        assert("- `"@ + t + end =~= ("- `"@ + t + "` ❌"@) + "\n"@);
        lemma_contains_front(tool_permissions_spec(ctx), "- `"@ + t + "` ❌"@, "\n"@);
    }
}

/// A one-element list when `o` holds text, otherwise empty.
pub open spec fn opt_section(sec: PromptSection, o: Option<String>) -> Seq<(PromptSection, Seq<char>)> {
    match o {
        Some(s) => seq![(sec, s@)],
        None => seq![],
    }
}

/// Section id and text of each custom section.
pub open spec fn custom_views(c: Seq<(u8, String)>) -> Seq<(PromptSection, Seq<char>)> {
    Seq::new(c.len(), |i: int| (PromptSection::Custom(c[i].0), c[i].1@))
}

/// Section tag and text of each built section.
pub open spec fn section_views(v: Seq<(PromptSection, String)>) -> Seq<(PromptSection, Seq<char>)> {
    Seq::new(v.len(), |i: int| (v[i].0, v[i].1@))
}

/// Position of the first occurrence of `s` in `o`, or -1.
pub open spec fn first_pos(o: Seq<PromptSection>, s: PromptSection) -> int
    decreases o.len(),
{
    if o.len() == 0 {
        -1
    } else {
        let r = first_pos(o.drop_last(), s);
        if r >= 0 {
            r
        } else if o.last() == s {
            o.len() - 1
        } else {
            -1
        }
    }
}

/// The first budget entry for `s`.
pub open spec fn budget_lookup(b: Seq<(PromptSection, usize)>, s: PromptSection) -> Option<usize>
    decreases b.len(),
{
    if b.len() == 0 {
        None
    } else {
        let r = budget_lookup(b.drop_last(), s);
        if r is Some {
            r
        } else if b.last().0 == s {
            Some(b.last().1)
        } else {
            None
        }
    }
}

/// Concatenation of rendered sections.
pub open spec fn concat_rendered(parts: Seq<Seq<char>>) -> Seq<char>
    decreases parts.len(),
{
    if parts.len() == 0 {
        seq![]
    } else {
        concat_rendered(parts.drop_last()) + parts.last()
    }
}

/// Sort keys of the sections in order, paired with their positions.
pub open spec fn keyed_positions(keys: Seq<usize>) -> Seq<(usize, usize)> {
    Seq::new(keys.len(), |i: int| (keys[i], i as usize))
}

/// Positions of the kept sections after the stable sort.
pub open spec fn sorted_positions(keys: Seq<usize>) -> Seq<(usize, usize)> {
    sort_by_key(keyed_positions(keys))
}

/// The stable sort keeps positions in range.
pub proof fn lemma_sorted_positions_range(keys: Seq<usize>)
    ensures
        sorted_positions(keys).len() == keys.len(),
        forall|j: int|
            0 <= j < sorted_positions(keys).len() ==> (#[trigger] sorted_positions(keys)[j]).1
                < keys.len(),
{
    broadcast use vstd::seq_lib::group_to_multiset_ensures;

    crate::sort::lemma_sort_ascending(keyed_positions(keys));
    let s = sorted_positions(keys);
    assert forall|j: int| 0 <= j < s.len() implies (#[trigger] s[j]).1 < keys.len() by {
        assert(s.to_multiset().count(s[j]) > 0);
        assert(keyed_positions(keys).to_multiset().count(s[j]) > 0);
        assert(keyed_positions(keys).contains(s[j]));
    }
}

impl PromptConfig {
    /// Sort key of a section: its position in the custom order (or the largest
    /// key when it is not listed), or its default order.
    pub open spec fn key_of(self, s: PromptSection) -> usize {
        match self.section_order {
            Some(o) => if first_pos(o@, s) >= 0 {
                first_pos(o@, s) as usize
            } else {
                usize::MAX
            },
            None => s.order_spec() as usize,
        }
    }

    /// Whether a section is skipped: it is listed, and it is not the
    /// Platform section, which cannot be omitted.
    pub open spec fn skips(self, s: PromptSection) -> bool {
        s != PromptSection::Platform && self.skip_sections@.contains(s)
    }

    /// A section rendered with its header (when enabled and the content does
    /// not itself start with `#`) and its budget.
    pub open spec fn render_section(self, sec: PromptSection, content: Seq<char>) -> Seq<char> {
        (if self.include_headers && !starts_with(trim(content), "#"@) {
            sec.header_spec() + "\n\n"@
        } else {
            seq![]
        }) + (match budget_lookup(self.section_budgets@, sec) {
            Some(b) => truncate_spec(content, b as nat),
            None => content,
        }) + "\n\n"@
    }

    /// The sections in prompt order.
    pub open spec fn ordered(self, kept: Seq<(PromptSection, Seq<char>)>) -> Seq<(PromptSection, Seq<char>)> {
        let keys = Seq::new(kept.len(), |i: int| self.key_of(kept[i].0));
        let pos = sorted_positions(keys);
        Seq::new(pos.len(), |j: int| kept[pos[j].1 as int])
    }

    /// The concatenated body before the total token limit.
    pub open spec fn body(self, kept: Seq<(PromptSection, Seq<char>)>) -> Seq<char> {
        let ord = self.ordered(kept);
        concat_rendered(Seq::new(ord.len(), |j: int| self.render_section(ord[j].0, ord[j].1)))
    }

    /// Every budgeted section can be truncated without a panic, and every key
    /// can be computed (custom ids up to 155 under the default order).
    pub open spec fn sections_ok(self, kept: Seq<(PromptSection, Seq<char>)>) -> bool {
        forall|i: int|
            0 <= i < kept.len() ==> {
                &&& (self.section_order is None ==> (#[trigger] kept[i]).0.order_fits())
                &&& match budget_lookup(self.section_budgets@, kept[i].0) {
                    Some(b) => can_truncate(kept[i].1, b as nat),
                    None => true,
                }
            }
    }
}

/// Configuration of a generator.
pub struct SystemPromptGenerator {
    config: PromptConfig,
}

impl SystemPromptGenerator {
    /// The generator's configuration.
    pub closed spec fn cfg(self) -> PromptConfig {
        self.config
    }

    /// Sections before skipping, in build order.
    pub open spec fn raw_sections(self, ctx: ResolvedContext) -> Seq<(PromptSection, Seq<char>)> {
        (if ctx.platform_rules@.len() > 0 {
            seq![(PromptSection::Platform, ctx.platform_rules@)]
        } else {
            seq![]
        }) + opt_section(PromptSection::Organization, ctx.org_conventions) + opt_section(
            PromptSection::User,
            ctx.user_preferences,
        ) + opt_section(PromptSection::Memory, ctx.memory_context) + opt_section(
            PromptSection::Session,
            ctx.session_context,
        ) + (if ctx.skill_descriptions@.len() > 0 {
            seq![(PromptSection::SkillDescriptions, ctx.skill_descriptions@)]
        } else {
            seq![]
        }) + (if ctx.loaded_skills@.len() > 0 {
            seq![(PromptSection::LoadedSkills, loaded_skills_spec(ctx.loaded_skills@))]
        } else {
            seq![]
        }) + opt_section(PromptSection::Task, ctx.task_instructions) + opt_section(
            PromptSection::SubAgent,
            ctx.subagent_context,
        ) + (if self.cfg().include_tool_permissions {
            seq![(PromptSection::ToolPermissions, tool_permissions_spec(ctx))]
        } else {
            seq![]
        }) + custom_views(self.cfg().custom_sections@)
    }

    /// Sections after removing skipped ones.
    pub open spec fn kept_sections(self, ctx: ResolvedContext) -> Seq<(PromptSection, Seq<char>)> {
        self.raw_sections(ctx).filter(|p: (PromptSection, Seq<char>)| !self.cfg().skips(p.0))
    }

    /// The generated prompt.
    pub open spec fn generate_spec(self, ctx: ResolvedContext) -> Seq<char> {
        let body = self.cfg().body(self.kept_sections(ctx));
        trim_end(
            if self.cfg().max_tokens > 0 {
                truncate_spec(body, self.cfg().max_tokens as nat)
            } else {
                body
            },
        )
    }

    /// Generation does not panic: keys computable, budgets cuttable, and the
    /// whole body cuttable at the total limit.
    pub open spec fn can_generate(self, ctx: ResolvedContext) -> bool {
        &&& self.cfg().sections_ok(self.kept_sections(ctx))
        &&& (self.cfg().max_tokens > 0 ==> can_truncate(
            self.cfg().body(self.kept_sections(ctx)),
            self.cfg().max_tokens as nat,
        ))
    }

    /// Create a new generator with default configuration.
    pub fn new() -> (r: Self)
        ensures
            r.cfg().is_default(),
    {
        SystemPromptGenerator { config: PromptConfig::default() }
    }

    /// Set maximum token limit.
    pub fn with_max_tokens(self, max_tokens: usize) -> (r: Self)
        ensures
            r.cfg() == (PromptConfig { max_tokens, ..self.cfg() }),
    {
        let mut s = self;
        s.config.max_tokens = max_tokens;
        s
    }

    /// Set whether to include section headers.
    pub fn with_headers(self, enabled: bool) -> (r: Self)
        ensures
            r.cfg() == (PromptConfig { include_headers: enabled, ..self.cfg() }),
    {
        let mut s = self;
        s.config.include_headers = enabled;
        s
    }

    /// Set whether to include the tool permissions section.
    pub fn with_tool_permissions(self, enabled: bool) -> (r: Self)
        ensures
            r.cfg() == (PromptConfig { include_tool_permissions: enabled, ..self.cfg() }),
    {
        let mut s = self;
        s.config.include_tool_permissions = enabled;
        s
    }

    /// Set a custom section order.
    pub fn with_section_order(self, order: Vec<PromptSection>) -> (r: Self)
        ensures
            r.cfg() == (PromptConfig { section_order: Some(order), ..self.cfg() }),
    {
        let mut s = self;
        s.config.section_order = Some(order);
        s
    }

    /// Skip a section.
    pub fn skip_section(self, section: PromptSection) -> (r: Self)
        ensures
            r.cfg().skip_sections@ == self.cfg().skip_sections@.push(section),
            r.cfg().max_tokens == self.cfg().max_tokens,
            r.cfg().include_headers == self.cfg().include_headers,
            r.cfg().include_tool_permissions == self.cfg().include_tool_permissions,
            r.cfg().section_order == self.cfg().section_order,
            r.cfg().custom_sections == self.cfg().custom_sections,
            r.cfg().section_budgets == self.cfg().section_budgets,
    {
        let mut s = self;
        s.config.skip_sections.push(section);
        s
    }

    /// Add a custom section, replacing the content of an existing one with that id.
    pub fn with_custom_section(self, id: u8, content: String) -> (r: Self)
        ensures
            ({
                let old_c = self.cfg().custom_sections@;
                let new_c = r.cfg().custom_sections@;
                if exists|i: int| 0 <= i < old_c.len() && (#[trigger] old_c[i]).0 == id {
                    exists|i: int|
                        0 <= i < old_c.len() && (#[trigger] old_c[i]).0 == id && (forall|j: int|
                            0 <= j < i ==> old_c[j].0 != id) && new_c == old_c.update(
                            i,
                            (id, content),
                        )
                } else {
                    new_c == old_c.push((id, content))
                }
            }),
            r.cfg().max_tokens == self.cfg().max_tokens,
            r.cfg().include_headers == self.cfg().include_headers,
            r.cfg().include_tool_permissions == self.cfg().include_tool_permissions,
            r.cfg().section_order == self.cfg().section_order,
            r.cfg().skip_sections == self.cfg().skip_sections,
            r.cfg().section_budgets == self.cfg().section_budgets,
    {
        let mut s = self;
        let mut i: usize = 0;
        while i < s.config.custom_sections.len()
            invariant
                0 <= i <= s.config.custom_sections@.len(),
                s.config == self.cfg(),
                forall|j: int| 0 <= j < i ==> (#[trigger] s.config.custom_sections@[j]).0 != id,
            decreases s.config.custom_sections.len() - i,
        {
            if s.config.custom_sections[i].0 == id {
                s.config.custom_sections.set(i, (id, content));
                return s;
            }
            i = i + 1;
        }
        s.config.custom_sections.push((id, content));
        s
    }

    /// Set the token budget of a section, replacing an earlier budget for it.
    pub fn with_section_budget(self, section: PromptSection, budget: usize) -> (r: Self)
        ensures
            budget_lookup(r.cfg().section_budgets@, section) == Some(budget),
            forall|s: PromptSection|
                s != section ==> budget_lookup(r.cfg().section_budgets@, s) == budget_lookup(
                    self.cfg().section_budgets@,
                    s,
                ),
            r.cfg().max_tokens == self.cfg().max_tokens,
            r.cfg().include_headers == self.cfg().include_headers,
            r.cfg().include_tool_permissions == self.cfg().include_tool_permissions,
            r.cfg().section_order == self.cfg().section_order,
            r.cfg().skip_sections == self.cfg().skip_sections,
            r.cfg().custom_sections == self.cfg().custom_sections,
    {
        let mut s = self;
        let ghost b0 = s.config.section_budgets@;
        let mut i: usize = 0;
        while i < s.config.section_budgets.len()
            invariant
                0 <= i <= b0.len(),
                s.config == self.cfg(),
                b0 == self.cfg().section_budgets@,
                forall|j: int| 0 <= j < i ==> (#[trigger] b0[j]).0 != section,
            decreases b0.len() - i,
        {
            if s.config.section_budgets[i].0 == section {
                s.config.section_budgets.set(i, (section, budget));
                proof {
                    lemma_budget_update(b0, i as int, section, budget);
                }
                return s;
            }
            i = i + 1;
        }
        s.config.section_budgets.push((section, budget));
        proof {
            lemma_budget_push(b0, section, budget);
        }
        s
    }

    /// The first budget entry for a section.
    fn find_budget(&self, section: PromptSection) -> (r: Option<usize>)
        ensures
            r == budget_lookup(self.cfg().section_budgets@, section),
    {
        let b = &self.config.section_budgets;
        let mut i: usize = 0;
        while i < b.len()
            invariant
                0 <= i <= b@.len(),
                b@ == self.cfg().section_budgets@,
                budget_lookup(b@.take(i as int), section) is None,
            decreases b.len() - i,
        {
            proof {
                assert(b@.take(i + 1).drop_last() =~= b@.take(i as int));
            }
            if b[i].0 == section {
                proof {
                    lemma_budget_prefix(b@, i + 1, section);
                }
                return Some(b[i].1);
            }
            i = i + 1;
        }
        proof {
            assert(b@.take(b@.len() as int) =~= b@);
        }
        None
    }

    /// Sort key of a section under this configuration.
    fn section_key(&self, section: PromptSection) -> (r: usize)
        requires
            self.cfg().section_order is None ==> section.order_fits(),
        ensures
            r == self.cfg().key_of(section),
    {
        match &self.config.section_order {
            Some(order) => {
                let mut i: usize = 0;
                while i < order.len()
                    invariant
                        0 <= i <= order@.len(),
                        self.cfg().section_order == Some(*order),
                        first_pos(order@.take(i as int), section) == -1,
                    decreases order.len() - i,
                {
                    proof {
                        assert(order@.take(i + 1).drop_last() =~= order@.take(i as int));
                    }
                    if order[i] == section {
                        proof {
                            lemma_first_pos_prefix(order@, i + 1, section);
                        }
                        return i;
                    }
                    i = i + 1;
                }
                proof {
                    assert(order@.take(order@.len() as int) =~= order@);
                }
                usize::MAX
            },
            None => section.default_order() as usize,
        }
    }

    /// Generate the system prompt from a resolved context.
    pub fn generate(&self, ctx: &ResolvedContext) -> (r: String)
        requires
            self.can_generate(*ctx),
        ensures
            r@ == self.generate_spec(*ctx),
    {
        let sections = self.build_sections(ctx);
        // Filter out skipped sections.
        let mut kept: Vec<(PromptSection, String)> = Vec::new();
        let ghost raw = section_views(sections@);
        let ghost pred = |p: (PromptSection, Seq<char>)| !self.cfg().skips(p.0);
        let mut i: usize = 0;
        while i < sections.len()
            invariant
                0 <= i <= sections@.len(),
                raw == section_views(sections@),
                pred == (|p: (PromptSection, Seq<char>)| !self.cfg().skips(p.0)),
                section_views(kept@) == raw.take(i as int).filter(pred),
            decreases sections.len() - i,
        {
            let is_platform = match sections[i].0 {
                PromptSection::Platform => true,
                _ => false,
            };
            let skip = !is_platform && section_listed(&self.config.skip_sections, sections[i].0);
            proof {
                reveal_with_fuel(Seq::<_>::filter, 1);
                assert(raw.take(i + 1).drop_last() =~= raw.take(i as int));
                assert(raw.take(i + 1).last() == (sections@[i as int].0, sections@[i as int].1@));
            }
            if !skip {
                let ghost before = kept@;
                kept.push((sections[i].0, sections[i].1.clone()));
                assert(section_views(kept@) =~= section_views(before).push(
                    (sections@[i as int].0, sections@[i as int].1@),
                ));
            }
            i = i + 1;
        }
        proof {
            assert(raw.take(sections@.len() as int) =~= raw);
        }
        let ghost kv = section_views(kept@);
        // Sort keys.
        let mut keyed: Vec<(usize, usize)> = Vec::new();
        let ghost keys = Seq::new(kv.len(), |k: int| self.cfg().key_of(kv[k].0));
        let mut k: usize = 0;
        while k < kept.len()
            invariant
                0 <= k <= kept@.len(),
                kv == section_views(kept@),
                keys == Seq::new(kv.len(), |k: int| self.cfg().key_of(kv[k].0)),
                self.cfg().sections_ok(kv),
                keyed@ == keyed_positions(keys).take(k as int),
            decreases kept.len() - k,
        {
            proof {
                assert(kv[k as int].0 == kept@[k as int].0);
            }
            let key = self.section_key(kept[k].0);
            keyed.push((key, k));
            k = k + 1;
            assert(keyed@ =~= keyed_positions(keys).take(k as int));
        }
        proof {
            assert(keyed_positions(keys).take(kept@.len() as int) =~= keyed_positions(keys));
        }
        let order = stable_sort_by_key(keyed);
        proof {
            lemma_sorted_positions_range(keys);
        }
        // Render.
        let ghost ord = self.cfg().ordered(kv);
        let ghost rendered = Seq::new(ord.len(), |j: int| self.cfg().render_section(ord[j].0, ord[j].1));
        let mut prompt = String::new();
        let mut j: usize = 0;
        while j < order.len()
            invariant
                0 <= j <= order@.len(),
                order@ == sorted_positions(keys),
                order@.len() == kv.len(),
                kv == section_views(kept@),
                keys == Seq::new(kv.len(), |k: int| self.cfg().key_of(kv[k].0)),
                ord == self.cfg().ordered(kv),
                rendered == Seq::new(ord.len(), |j: int| self.cfg().render_section(ord[j].0, ord[j].1)),
                self.cfg().sections_ok(kv),
                forall|m: int| 0 <= m < order@.len() ==> (#[trigger] order@[m]).1 < kv.len(),
                prompt@ == concat_rendered(rendered.take(j as int)),
            decreases order.len() - j,
        {
            let pos = order[j].1;
            let section = kept[pos].0;
            let content = kept[pos].1.as_str();
            proof {
                assert(ord[j as int] == kv[pos as int]);
            }
            let trimmed = trim_string(content);
            if self.config.include_headers && !str_starts_with(trimmed.as_str(), "#") {
                push_str(&mut prompt, section.header());
                push_str(&mut prompt, "\n\n");
            }
            let budget = self.find_budget(section);
            let ghost before_body = prompt@;
            match budget {
                Some(b) => {
                    proof {
                        assert(self.cfg().sections_ok(kv));
                        assert(kv[pos as int] == (section, content@));
                    }
                    let t = self.truncate_to_tokens(content, b);
                    push_str(&mut prompt, t.as_str());
                },
                None => {
                    push_str(&mut prompt, content);
                },
            }
            push_str(&mut prompt, "\n\n");
            proof {
                assert(rendered.take(j + 1).drop_last() =~= rendered.take(j as int));
                assert(rendered[j as int] == self.cfg().render_section(section, content@));
                assert(prompt@ =~= concat_rendered(rendered.take(j + 1)));
            }
            j = j + 1;
        }
        proof {
            assert(rendered.take(order@.len() as int) =~= rendered);
            assert(prompt@ == self.cfg().body(kv));
        }
        let prompt = if self.config.max_tokens > 0 {
            self.truncate_to_tokens(prompt.as_str(), self.config.max_tokens)
        } else {
            prompt
        };
        trim_end_string(prompt.as_str())
    }

    /// Sections before skipping, in build order.
    fn build_sections(&self, ctx: &ResolvedContext) -> (r: Vec<(PromptSection, String)>)
        ensures
            section_views(r@) == self.raw_sections(*ctx),
    {
        let mut sections: Vec<(PromptSection, String)> = Vec::new();
        if !ctx.platform_rules.as_str().is_empty() {
            sections.push((PromptSection::Platform, ctx.platform_rules.clone()));
        }
        let ghost s0 = section_views(sections@);
        assert(s0 =~= (if ctx.platform_rules@.len() > 0 {
            seq![(PromptSection::Platform, ctx.platform_rules@)]
        } else {
            seq![]
        }));
        Self::push_opt(&mut sections, PromptSection::Organization, &ctx.org_conventions);
        Self::push_opt(&mut sections, PromptSection::User, &ctx.user_preferences);
        Self::push_opt(&mut sections, PromptSection::Memory, &ctx.memory_context);
        Self::push_opt(&mut sections, PromptSection::Session, &ctx.session_context);
        let ghost s1 = section_views(sections@);
        if !ctx.skill_descriptions.as_str().is_empty() {
            sections.push((PromptSection::SkillDescriptions, ctx.skill_descriptions.clone()));
        }
        let ghost s2 = section_views(sections@);
        assert(s2 =~= s1 + (if ctx.skill_descriptions@.len() > 0 {
            seq![(PromptSection::SkillDescriptions, ctx.skill_descriptions@)]
        } else {
            seq![]
        }));
        if ctx.loaded_skills.len() > 0 {
            let skills_content = self.format_loaded_skills(ctx.loaded_skills.as_slice());
            sections.push((PromptSection::LoadedSkills, skills_content));
        }
        let ghost s3 = section_views(sections@);
        assert(s3 =~= s2 + (if ctx.loaded_skills@.len() > 0 {
            seq![(PromptSection::LoadedSkills, loaded_skills_spec(ctx.loaded_skills@))]
        } else {
            seq![]
        }));
        Self::push_opt(&mut sections, PromptSection::Task, &ctx.task_instructions);
        Self::push_opt(&mut sections, PromptSection::SubAgent, &ctx.subagent_context);
        let ghost s4 = section_views(sections@);
        if self.config.include_tool_permissions {
            let permissions = self.format_tool_permissions(ctx);
            if !permissions.as_str().is_empty() {
                sections.push((PromptSection::ToolPermissions, permissions));
            } else {
                proof {
                    reveal_strlit("**Permission Mode**: ");
                    assert(tool_permissions_spec(*ctx).len() > 0);
                }
            }
        }
        let ghost s5 = section_views(sections@);
        assert(s5 =~= s4 + (if self.cfg().include_tool_permissions {
            seq![(PromptSection::ToolPermissions, tool_permissions_spec(*ctx))]
        } else {
            seq![]
        }));
        let ghost c = self.cfg().custom_sections@;
        proof {
            assert(custom_views(c.take(0)) =~= Seq::<(PromptSection, Seq<char>)>::empty());
            assert(section_views(sections@) =~= s5 + custom_views(c.take(0)));
        }
        let mut i: usize = 0;
        while i < self.config.custom_sections.len()
            invariant
                0 <= i <= c.len(),
                c == self.cfg().custom_sections@,
                section_views(sections@) == s5 + custom_views(c.take(i as int)),
            decreases self.config.custom_sections.len() - i,
        {
            let ghost before = section_views(sections@);
            let entry = &self.config.custom_sections[i];
            let content = entry.1.clone();
            sections.push((PromptSection::Custom(entry.0), content));
            proof {
                assert(section_views(sections@) =~= before.push((PromptSection::Custom(entry.0), entry.1@)));
                assert(custom_views(c.take(i + 1)) =~= custom_views(c.take(i as int)).push((PromptSection::Custom(entry.0), entry.1@)));
            }
            i = i + 1;
        }
        proof {
            assert(c.take(c.len() as int) =~= c);
            assert(section_views(sections@) =~= self.raw_sections(*ctx));
        }
        sections
    }

    /// Appends `(section, text)` when `o` holds text.
    fn push_opt(v: &mut Vec<(PromptSection, String)>, section: PromptSection, o: &Option<String>)
        ensures
            section_views(final(v)@) == section_views(old(v)@) + opt_section(section, *o),
    {
        let ghost before = section_views(v@);
        if let Some(s) = o {
            v.push((section, s.clone()));
        }
        assert(section_views(v@) =~= before + opt_section(section, *o));
    }

    /// Format loaded skills for the prompt.
    fn format_loaded_skills(&self, skills: &[LoadedSkill]) -> (r: String)
        ensures
            r@ == loaded_skills_spec(skills@),
    {
        let mut output = String::new();
        let mut i: usize = 0;
        while i < skills.len()
            invariant
                0 <= i <= skills@.len(),
                output@ == skill_blocks(skills@.take(i as int)),
            decreases skills.len() - i,
        {
            let skill = &skills[i];
            let ghost before = output@;
            push_str(&mut output, "## ");
            push_str(&mut output, skill.name.as_str());
            push_str(&mut output, " (Active)\n\n");
            if skill.requires_browser {
                push_str(&mut output, "> ⚠️ This skill requires browser access\n\n");
            }
            let ghost mid = output@;
            if skill.automation_tab {
                push_str(&mut output, "> 🤖 This skill uses automation tab\n\n");
            }
            push_str(&mut output, skill.content.as_str());
            push_str(&mut output, "\n\n---\n\n");
            proof {
                assert(skills@.take(i + 1).drop_last() =~= skills@.take(i as int));
                assert(output@ =~= before + skill_block(*skill));
            }
            i = i + 1;
        }
        proof {
            assert(skills@.take(skills@.len() as int) =~= skills@);
        }
        strip_suffix_all(output.as_str(), "\n---\n\n")
    }

    /// Format the tool permissions section.
    fn format_tool_permissions(&self, ctx: &ResolvedContext) -> (r: String)
        ensures
            r@ == tool_permissions_spec(*ctx),
    {
        let mut output = String::new();
        push_str(&mut output, "**Permission Mode**: ");
        push_str(
            &mut output,
            match ctx.permission_mode {
                PermissionMode::Normal => "Normal",
                PermissionMode::Elevated => "Elevated",
                PermissionMode::Restricted => "Restricted",
            },
        );
        push_str(&mut output, "\n\n");
        let ghost p0 = output@;
        if ctx.allowed_tools.len() > 0 {
            push_str(&mut output, "**Allowed Tools**:\n");
            push_tool_lines(&mut output, &ctx.allowed_tools, "`\n");
            push_str(&mut output, "\n");
        }
        let ghost p1 = output@;
        if ctx.blocked_tools.len() > 0 {
            push_str(&mut output, "**Blocked Tools**:\n");
            push_tool_lines(&mut output, &ctx.blocked_tools, "` ❌\n");
        }
        proof {
            assert(output@ =~= tool_permissions_spec(*ctx));
        }
        output
    }

    /// Truncate content to approximately `max_tokens` tokens (4 bytes per token),
    /// cutting at the last newline before the limit.
    fn truncate_to_tokens(&self, content: &str, max_tokens: usize) -> (r: String)
        requires
            can_truncate(content@, max_tokens as nat),
        ensures
            r@ == truncate_spec(content@, max_tokens as nat),
    {
        let max_chars = max_tokens * 4;
        if str_byte_len(content) <= max_chars {
            return to_owned(content);
        }
        let v = chars_of(content);
        let k = match char_index_at_byte(v.as_slice(), max_chars) {
            Some(k) => k,
            None => 0,
        };
        let ghost cut = v@.take(k as int);
        proof {
            assert(cut == byte_prefix(content@, max_chars as int));
        }
        let mut j = k;
        proof {
            assert(cut.take(j as int) =~= cut);
        }
        while j > 0 && v[j - 1] != '\n'
            invariant
                0 <= j <= k <= v@.len(),
                cut == v@.take(k as int),
                last_newline(cut.take(j as int)) == last_newline(cut),
            decreases j,
        {
            proof {
                assert(cut.take(j as int).drop_last() =~= cut.take(j - 1));
                assert(cut.take(j as int).last() == v@[j - 1]);
            }
            j = j - 1;
        }
        let mut out = if j > 0 {
            proof {
                assert(cut.take(j as int).last() == v@[j - 1]);
                assert(last_newline(cut) == j - 1);
                assert(v@.subrange(0, j - 1) =~= cut.take(j - 1));
            }
            string_from_range(v.as_slice(), 0, j - 1)
        } else {
            proof {
                assert(cut.take(0) =~= Seq::<char>::empty());
                assert(v@.subrange(0, k as int) =~= cut);
            }
            string_from_range(v.as_slice(), 0, k)
        };
        push_str(&mut out, "\n\n[... truncated for token limit ...]");
        out
    }

    /// Get the current configuration.
    pub fn config(&self) -> (r: &PromptConfig)
        ensures
            *r == self.cfg(),
    {
        &self.config
    }

    /// Estimate the token count of a string: a quarter of its byte length.
    pub fn estimate_tokens(content: &str) -> (r: usize)
        ensures
            r == byte_len(content@) / 4,
    {
        str_byte_len(content) / 4
    }
}

impl Default for SystemPromptGenerator {
    fn default() -> (r: Self)
        ensures
            r.cfg().is_default(),
    {
        Self::new()
    }
}

/// Whether `s` occurs in `v`.
fn section_listed(v: &Vec<PromptSection>, s: PromptSection) -> (r: bool)
    ensures
        r == v@.contains(s),
{
    let mut i: usize = 0;
    while i < v.len()
        invariant
            0 <= i <= v@.len(),
            forall|j: int| 0 <= j < i ==> v@[j] != s,
        decreases v.len() - i,
    {
        if v[i] == s {
            return true;
        }
        i = i + 1;
    }
    false
}

/// Appends a bullet line per tool: "- `" + name + `end`.
fn push_tool_lines(out: &mut String, tools: &Vec<String>, end: &str)
    ensures
        final(out)@ == old(out)@ + tool_lines(tools@, end@),
{
    let ghost start = out@;
    let mut i: usize = 0;
    while i < tools.len()
        invariant
            0 <= i <= tools@.len(),
            out@ == start + tool_lines(tools@.take(i as int), end@),
        decreases tools.len() - i,
    {
        push_str(out, "- `");
        push_str(out, tools[i].as_str());
        push_str(out, end);
        proof {
            assert(tools@.take(i + 1).drop_last() =~= tools@.take(i as int));
        }
        i = i + 1;
        assert(out@ =~= start + tool_lines(tools@.take(i as int), end@));
    }
    assert(tools@.take(tools@.len() as int) =~= tools@);
}

/// `s` with every trailing repetition of `p` removed (`str::trim_end_matches`).
pub fn strip_suffix_all(s: &str, p: &str) -> (r: String)
    ensures
        r@ == strip_suffixes(s@, p@),
{
    let v = chars_of(s);
    let pv = chars_of(p);
    let mut n = v.len();
    proof {
        assert(v@.take(n as int) =~= v@);
    }
    if pv.len() == 0 {
        return string_from_range(v.as_slice(), 0, n);
    }
    while n >= pv.len() && crate::text::occurs_at_exec(v.as_slice(), pv.as_slice(), n - pv.len())
        invariant
            0 <= n <= v@.len(),
            pv@.len() > 0,
            strip_suffixes(v@.take(n as int), pv@) == strip_suffixes(v@, pv@),
        decreases n,
    {
        proof {
            assert(v@.take(n as int).subrange(n - pv@.len(), n as int) =~= v@.subrange(n - pv@.len(), n as int));
            assert(v@.take(n as int).take(n - pv@.len()) =~= v@.take(n - pv@.len()));
        }
        n = n - pv.len();
    }
    proof {
        if n >= pv@.len() {
            assert(v@.take(n as int).subrange(n - pv@.len(), n as int) =~= v@.subrange(n - pv@.len(), n as int));
        }
        assert(v@.subrange(0, n as int) =~= v@.take(n as int));
    }
    string_from_range(v.as_slice(), 0, n)
}

/// A budget written over an existing entry answers for that section.
proof fn lemma_budget_update(b: Seq<(PromptSection, usize)>, i: int, s: PromptSection, v: usize)
    requires
        0 <= i < b.len(),
        b[i].0 == s,
        forall|j: int| 0 <= j < i ==> (#[trigger] b[j]).0 != s,
    ensures
        budget_lookup(b.update(i, (s, v)), s) == Some(v),
        forall|t: PromptSection| t != s ==> budget_lookup(b.update(i, (s, v)), t) == budget_lookup(b, t),
{
    lemma_budget_first(b.update(i, (s, v)), i, s);
    assert forall|t: PromptSection| t != s implies budget_lookup(b.update(i, (s, v)), t) == budget_lookup(b, t) by {
        lemma_budget_same_keys(b, b.update(i, (s, v)), t);
    }
}

/// A budget appended for a new section answers for it.
proof fn lemma_budget_push(b: Seq<(PromptSection, usize)>, s: PromptSection, v: usize)
    requires
        forall|j: int| 0 <= j < b.len() ==> (#[trigger] b[j]).0 != s,
    ensures
        budget_lookup(b.push((s, v)), s) == Some(v),
        forall|t: PromptSection| t != s ==> budget_lookup(b.push((s, v)), t) == budget_lookup(b, t),
{
    assert(b.push((s, v)).drop_last() =~= b);
    lemma_budget_none(b, s);
}

/// No entry for `s` means no budget.
proof fn lemma_budget_none(b: Seq<(PromptSection, usize)>, s: PromptSection)
    requires
        forall|j: int| 0 <= j < b.len() ==> (#[trigger] b[j]).0 != s,
    ensures
        budget_lookup(b, s) is None,
    decreases b.len(),
{
    if b.len() > 0 {
        lemma_budget_none(b.drop_last(), s);
    }
}

/// The first entry for `s` gives its budget.
proof fn lemma_budget_first(b: Seq<(PromptSection, usize)>, i: int, s: PromptSection)
    requires
        0 <= i < b.len(),
        b[i].0 == s,
        forall|j: int| 0 <= j < i ==> (#[trigger] b[j]).0 != s,
    ensures
        budget_lookup(b, s) == Some(b[i].1),
    decreases b.len(),
{
    if i < b.len() - 1 {
        lemma_budget_first(b.drop_last(), i, s);
    } else {
        lemma_budget_none(b.drop_last(), s);
    }
}

/// Lookups agree for sequences whose entries for `t` agree position by position.
proof fn lemma_budget_same_keys(a: Seq<(PromptSection, usize)>, b: Seq<(PromptSection, usize)>, t: PromptSection)
    requires
        a.len() == b.len(),
        forall|j: int| 0 <= j < a.len() ==> ((#[trigger] a[j]).0 == t || b[j].0 == t) ==> a[j] == b[j],
    ensures
        budget_lookup(a, t) == budget_lookup(b, t),
    decreases a.len(),
{
    if a.len() > 0 {
        lemma_budget_same_keys(a.drop_last(), b.drop_last(), t);
    }
}

/// A hit at the end of a prefix with no earlier hit is the lookup result.
proof fn lemma_budget_prefix(b: Seq<(PromptSection, usize)>, n: int, s: PromptSection)
    requires
        0 < n <= b.len(),
        b[n - 1].0 == s,
        budget_lookup(b.take(n - 1), s) is None,
    ensures
        budget_lookup(b, s) == Some(b[n - 1].1),
    decreases b.len(),
{
    if n < b.len() {
        assert(b.drop_last().take(n - 1) =~= b.take(n - 1));
        lemma_budget_prefix(b.drop_last(), n, s);
    } else {
        assert(b.drop_last() =~= b.take(n - 1));
    }
}

/// A hit at the end of a prefix with no earlier hit is the first position.
proof fn lemma_first_pos_prefix(o: Seq<PromptSection>, n: int, s: PromptSection)
    requires
        0 < n <= o.len(),
        o[n - 1] == s,
        first_pos(o.take(n - 1), s) == -1,
    ensures
        first_pos(o, s) == n - 1,
    decreases o.len(),
{
    if n < o.len() {
        assert(o.drop_last().take(n - 1) =~= o.take(n - 1));
        lemma_first_pos_prefix(o.drop_last(), n, s);
    } else {
        assert(o.drop_last() =~= o.take(n - 1));
    }
}

/// Builder for creating prompts with a fluent API.
pub struct PromptBuilder {
    sections: Vec<(u8, String)>,
    separator: String,
}

/// Contents of the builder's sections after a stable sort by priority.
pub open spec fn built_parts(sections: Seq<(u8, Seq<char>)>) -> Seq<Seq<char>> {
    let keyed = Seq::new(sections.len(), |i: int| (sections[i].0 as usize, i as usize));
    let pos = sort_by_key(keyed);
    Seq::new(pos.len(), |j: int| sections[pos[j].1 as int].1)
}

/// `after` is `before` with one more section of the given priority and
/// content, and the same separator.
pub open spec fn adds_section(
    before: PromptBuilder,
    after: PromptBuilder,
    priority: u8,
    content: Seq<char>,
) -> bool {
    after.parts() == before.parts().push((priority, content)) && after.sep() == before.sep()
}

/// Adding a section is determined by its priority and content: two
/// builders that add the same section to the same builder hold the same
/// sections, the same separator, and build the same text.  So `platform(x)`
/// is `add_section(0, x)`, `organization(x)` is `add_section(1, x)`, and so
/// on to `task(x)`, `add_section(5, x)`, and `subagent(x)`,
/// `add_section(6, x)`.
pub proof fn lemma_same_section_same_builder(
    b: PromptBuilder,
    r1: PromptBuilder,
    r2: PromptBuilder,
    priority: u8,
    content: Seq<char>,
)
    requires
        adds_section(b, r1, priority, content),
        adds_section(b, r2, priority, content),
    ensures
        r1.parts() == r2.parts(),
        r1.sep() == r2.sep(),
        join(built_parts(r1.parts()), r1.sep()) == join(built_parts(r2.parts()), r2.sep()),
{
}

impl PromptBuilder {
    /// The sections added so far, in insertion order.
    pub closed spec fn parts(self) -> Seq<(u8, Seq<char>)> {
        Seq::new(self.sections@.len(), |i: int| (self.sections@[i].0, self.sections@[i].1@))
    }

    /// The separator placed between sections.
    pub closed spec fn sep(self) -> Seq<char> {
        self.separator@
    }

    /// Create a new prompt builder with a blank-line separator.
    pub fn new() -> (r: Self)
        ensures
            r.parts().len() == 0,
            r.sep() == "\n\n"@,
    {
        PromptBuilder { sections: Vec::new(), separator: to_owned("\n\n") }
    }

    /// Set the separator between sections.
    pub fn with_separator(self, sep: &str) -> (r: Self)
        ensures
            r.parts() == self.parts(),
            r.sep() == sep@,
    {
        let mut s = self;
        s.separator = to_owned(sep);
        s
    }

    /// Add a section with a priority.
    pub fn add_section(self, priority: u8, content: &str) -> (r: Self)
        ensures
            r.parts().len() == self.parts().len() + 1,
            r.parts().take(self.parts().len() as int) == self.parts(),
            r.parts().last().0 == priority,
            r.sep() == self.sep(),
            r.parts().last().1 == content@,
            adds_section(self, r, priority, content@),
    {
        let mut s = self;
        s.sections.push((priority, to_owned(content)));
        assert(s.parts() =~= self.parts().push((priority, content@)));
        s
    }

    /// Add platform rules (priority 0).
    pub fn platform(self, content: &str) -> (r: Self)
        ensures
            r.parts().len() == self.parts().len() + 1,
            r.parts().take(self.parts().len() as int) == self.parts(),
            r.parts().last().0 == 0,
            r.sep() == self.sep(),
            r.parts().last().1 == content@,
            adds_section(self, r, 0u8, content@),
    {
        self.add_section(0, content)
    }

    /// Add organization conventions (priority 1).
    pub fn organization(self, content: &str) -> (r: Self)
        ensures
            r.parts().len() == self.parts().len() + 1,
            r.parts().take(self.parts().len() as int) == self.parts(),
            r.parts().last().0 == 1,
            r.sep() == self.sep(),
            r.parts().last().1 == content@,
            adds_section(self, r, 1u8, content@),
    {
        self.add_section(1, content)
    }

    /// Add user preferences (priority 2).
    pub fn user(self, content: &str) -> (r: Self)
        ensures
            r.parts().len() == self.parts().len() + 1,
            r.parts().take(self.parts().len() as int) == self.parts(),
            r.parts().last().0 == 2,
            r.sep() == self.sep(),
            r.parts().last().1 == content@,
            adds_section(self, r, 2u8, content@),
    {
        self.add_section(2, content)
    }

    /// Add session context (priority 3).
    pub fn session(self, content: &str) -> (r: Self)
        ensures
            r.parts().len() == self.parts().len() + 1,
            r.parts().take(self.parts().len() as int) == self.parts(),
            r.parts().last().0 == 3,
            r.sep() == self.sep(),
            r.parts().last().1 == content@,
            adds_section(self, r, 3u8, content@),
    {
        self.add_section(3, content)
    }

    /// Add skill descriptions (priority 4).
    pub fn skills(self, content: &str) -> (r: Self)
        ensures
            r.parts().len() == self.parts().len() + 1,
            r.parts().take(self.parts().len() as int) == self.parts(),
            r.parts().last().0 == 4,
            r.sep() == self.sep(),
            r.parts().last().1 == content@,
            adds_section(self, r, 4u8, content@),
    {
        self.add_section(4, content)
    }

    /// Add task instructions (priority 5).
    pub fn task(self, content: &str) -> (r: Self)
        ensures
            r.parts().len() == self.parts().len() + 1,
            r.parts().take(self.parts().len() as int) == self.parts(),
            r.parts().last().0 == 5,
            r.sep() == self.sep(),
            r.parts().last().1 == content@,
            adds_section(self, r, 5u8, content@),
    {
        self.add_section(5, content)
    }

    /// Add subagent context (priority 6).
    pub fn subagent(self, content: &str) -> (r: Self)
        ensures
            r.parts().len() == self.parts().len() + 1,
            r.parts().take(self.parts().len() as int) == self.parts(),
            r.parts().last().0 == 6,
            r.sep() == self.sep(),
            r.parts().last().1 == content@,
            adds_section(self, r, 6u8, content@),
    {
        self.add_section(6, content)
    }

    /// Build the final prompt: sections by priority (ties in insertion order),
    /// joined with the separator.
    pub fn build(self) -> (r: String)
        ensures
            r@ == join(built_parts(self.parts()), self.sep()),
    {
        let ghost pv = self.parts();
        let sections = self.sections;
        let sep = self.separator;
        let ghost secs = sections@;
        let ghost keyed_spec = Seq::new(secs.len(), |i: int| (secs[i].0 as usize, i as usize));
        let mut keyed: Vec<(usize, usize)> = Vec::new();
        let mut i: usize = 0;
        while i < sections.len()
            invariant
                0 <= i <= secs.len(),
                secs == sections@,
                keyed_spec == Seq::new(secs.len(), |i: int| (secs[i].0 as usize, i as usize)),
                keyed@ == keyed_spec.take(i as int),
            decreases sections.len() - i,
        {
            keyed.push((sections[i].0 as usize, i));
            i = i + 1;
            assert(keyed@ =~= keyed_spec.take(i as int));
        }
        assert(keyed_spec.take(secs.len() as int) =~= keyed_spec);
        let order = stable_sort_by_key(keyed);
        proof {
            broadcast use vstd::seq_lib::group_to_multiset_ensures;

            crate::sort::lemma_sort_ascending(keyed_spec);
            let s = sort_by_key(keyed_spec);
            assert forall|j: int| 0 <= j < s.len() implies (#[trigger] s[j]).1 < secs.len() by {
                assert(s.to_multiset().count(s[j]) > 0);
                assert(keyed_spec.to_multiset().count(s[j]) > 0);
                assert(keyed_spec.contains(s[j]));
            }
        }
        let ghost parts = built_parts(pv);
        proof {
            assert(keyed_spec =~= Seq::new(pv.len(), |i: int| (pv[i].0 as usize, i as usize)));
        }
        let mut out = String::new();
        let mut j: usize = 0;
        while j < order.len()
            invariant
                0 <= j <= order@.len(),
                order@ == sort_by_key(keyed_spec),
                order@.len() == secs.len(),
                secs == sections@,
                keyed_spec == Seq::new(secs.len(), |i: int| (secs[i].0 as usize, i as usize)),
                parts == built_parts(pv),
                pv == Seq::new(secs.len(), |i: int| (secs[i].0, secs[i].1@)),
                keyed_spec == Seq::new(pv.len(), |i: int| (pv[i].0 as usize, i as usize)),
                forall|m: int| 0 <= m < order@.len() ==> (#[trigger] order@[m]).1 < secs.len(),
                out@ == join(parts.take(j as int), sep@),
            decreases order.len() - j,
        {
            let ghost before = out@;
            if j > 0 {
                push_str(&mut out, sep.as_str());
            }
            push_str(&mut out, sections[order[j].1].1.as_str());
            proof {
                assert(parts.take(j + 1).drop_last() =~= parts.take(j as int));
                assert(parts[j as int] == sections@[order@[j as int].1 as int].1@);
                if j == 0 {
                    assert(parts.take(1) =~= seq![parts[0]]);
                    assert(out@ =~= parts[0]);
                } else {
                    assert(out@ =~= before + sep@ + parts[j as int]);
                }
            }
            j = j + 1;
        }
        assert(parts.take(order@.len() as int) =~= parts);
        out
    }
}

impl Default for PromptBuilder {
    fn default() -> (r: Self)
        ensures
            r.parts().len() == 0,
    {
        PromptBuilder { sections: Vec::new(), separator: String::new() }
    }
}

/// Filtering with a predicate that every element satisfies changes nothing.
pub proof fn lemma_filter_keep_all<A>(s: Seq<A>, pred: spec_fn(A) -> bool)
    requires
        forall|i: int| 0 <= i < s.len() ==> pred(#[trigger] s[i]),
    ensures
        s.filter(pred) == s,
    decreases s.len(),
{
    reveal_with_fuel(Seq::<_>::filter, 1);
    if s.len() > 0 {
        lemma_filter_keep_all(s.drop_last(), pred);
        assert(s.drop_last().push(s.last()) =~= s);
    } else {
        assert(s.filter(pred) =~= s);
    }
}

/// No section of the list is a custom one.
pub open spec fn standard_only(s: Seq<(PromptSection, Seq<char>)>) -> bool {
    forall|i: int| 0 <= i < s.len() ==> !((#[trigger] s[i]).0 is Custom)
}

proof fn lemma_standard_concat(a: Seq<(PromptSection, Seq<char>)>, b: Seq<(PromptSection, Seq<char>)>)
    requires
        standard_only(a),
        standard_only(b),
    ensures
        standard_only(a + b),
{
    assert forall|i: int| 0 <= i < (a + b).len() implies !((#[trigger] (a + b)[i]).0 is Custom) by {
        if i < a.len() {
            assert((a + b)[i] == a[i]);
        } else {
            assert((a + b)[i] == b[i - a.len()]);
        }
    }
}

/// Without custom sections, only standard sections are built.
proof fn lemma_raw_standard(g: SystemPromptGenerator, ctx: ResolvedContext)
    requires
        g.cfg().custom_sections@.len() == 0,
    ensures
        standard_only(g.raw_sections(ctx)),
{
    let p1 = if ctx.platform_rules@.len() > 0 {
        seq![(PromptSection::Platform, ctx.platform_rules@)]
    } else {
        seq![]
    };
    let p2 = opt_section(PromptSection::Organization, ctx.org_conventions);
    let p3 = opt_section(PromptSection::User, ctx.user_preferences);
    let p4 = opt_section(PromptSection::Memory, ctx.memory_context);
    let p5 = opt_section(PromptSection::Session, ctx.session_context);
    let p6 = if ctx.skill_descriptions@.len() > 0 {
        seq![(PromptSection::SkillDescriptions, ctx.skill_descriptions@)]
    } else {
        seq![]
    };
    let p7 = if ctx.loaded_skills@.len() > 0 {
        seq![(PromptSection::LoadedSkills, loaded_skills_spec(ctx.loaded_skills@))]
    } else {
        seq![]
    };
    let p8 = opt_section(PromptSection::Task, ctx.task_instructions);
    let p9 = opt_section(PromptSection::SubAgent, ctx.subagent_context);
    let p10 = if g.cfg().include_tool_permissions {
        seq![(PromptSection::ToolPermissions, tool_permissions_spec(ctx))]
    } else {
        seq![]
    };
    let p11 = custom_views(g.cfg().custom_sections@);
    assert(p11 =~= Seq::<(PromptSection, Seq<char>)>::empty());
    lemma_standard_concat(p1, p2);
    lemma_standard_concat(p1 + p2, p3);
    lemma_standard_concat(p1 + p2 + p3, p4);
    lemma_standard_concat(p1 + p2 + p3 + p4, p5);
    lemma_standard_concat(p1 + p2 + p3 + p4 + p5, p6);
    lemma_standard_concat(p1 + p2 + p3 + p4 + p5 + p6, p7);
    lemma_standard_concat(p1 + p2 + p3 + p4 + p5 + p6 + p7, p8);
    lemma_standard_concat(p1 + p2 + p3 + p4 + p5 + p6 + p7 + p8, p9);
    lemma_standard_concat(p1 + p2 + p3 + p4 + p5 + p6 + p7 + p8 + p9, p10);
    lemma_standard_concat(p1 + p2 + p3 + p4 + p5 + p6 + p7 + p8 + p9 + p10, p11);
}

/// Under a plain configuration nothing is skipped.
proof fn lemma_plain_kept(g: SystemPromptGenerator, ctx: ResolvedContext)
    requires
        g.cfg().is_plain(),
    ensures
        g.kept_sections(ctx) == g.raw_sections(ctx),
{
    let raw = g.raw_sections(ctx);
    let pred = |p: (PromptSection, Seq<char>)| !g.cfg().skips(p.0);
    assert forall|i: int| 0 <= i < raw.len() implies pred(#[trigger] raw[i]) by {}
    lemma_filter_keep_all(raw, pred);
}

/// Under a plain configuration (the default among them, whatever its headers
/// and tool-permission switches) every context can be rendered: nothing is
/// skipped, budgeted or cut, and only the standard sections occur.
#[verifier::rlimit(40)]
pub proof fn lemma_plain_can_generate(g: SystemPromptGenerator, ctx: ResolvedContext)
    requires
        g.cfg().is_plain(),
    ensures
        g.can_generate(ctx),
{
    let raw = g.raw_sections(ctx);
    lemma_plain_kept(g, ctx);
    lemma_raw_standard(g, ctx);
    assert forall|i: int| 0 <= i < raw.len() implies (#[trigger] raw[i]).0.order_fits() by {}
}

/// Plain generators with the same tool-permission switch build the same
/// sections.
proof fn lemma_plain_raw_agree(g1: SystemPromptGenerator, g2: SystemPromptGenerator, ctx: ResolvedContext)
    requires
        g1.cfg().is_plain(),
        g2.cfg().is_plain(),
        g1.cfg().include_tool_permissions == g2.cfg().include_tool_permissions,
    ensures
        g1.raw_sections(ctx) == g2.raw_sections(ctx),
{
    assert(custom_views(g1.cfg().custom_sections@) =~= custom_views(g2.cfg().custom_sections@));
}

/// Plain configurations with the same header switch render a list of
/// sections alike.
proof fn lemma_plain_body_agree(c1: PromptConfig, c2: PromptConfig, kept: Seq<(PromptSection, Seq<char>)>)
    requires
        c1.is_plain(),
        c2.is_plain(),
        c1.include_headers == c2.include_headers,
    ensures
        c1.body(kept) == c2.body(kept),
{
    let keys1 = Seq::new(kept.len(), |i: int| c1.key_of(kept[i].0));
    let keys2 = Seq::new(kept.len(), |i: int| c2.key_of(kept[i].0));
    assert(keys1 =~= keys2);
    assert(c1.ordered(kept) =~= c2.ordered(kept));
    let ord = c1.ordered(kept);
    let parts1 = Seq::new(ord.len(), |j: int| c1.render_section(ord[j].0, ord[j].1));
    let parts2 = Seq::new(ord.len(), |j: int| c2.render_section(ord[j].0, ord[j].1));
    assert forall|j: int| 0 <= j < ord.len() implies parts1[j] == parts2[j] by {
        assert(budget_lookup(c1.section_budgets@, ord[j].0) is None);
        assert(budget_lookup(c2.section_budgets@, ord[j].0) is None);
    }
    assert(parts1 =~= parts2);
}

/// Two plain generators with the same header and tool-permission switches
/// render every context alike.
pub proof fn lemma_plain_generators_agree(
    g1: SystemPromptGenerator,
    g2: SystemPromptGenerator,
    ctx: ResolvedContext,
)
    requires
        g1.cfg().is_plain(),
        g2.cfg().is_plain(),
        g1.cfg().include_headers == g2.cfg().include_headers,
        g1.cfg().include_tool_permissions == g2.cfg().include_tool_permissions,
    ensures
        g1.generate_spec(ctx) == g2.generate_spec(ctx),
{
    lemma_plain_kept(g1, ctx);
    lemma_plain_kept(g2, ctx);
    lemma_plain_raw_agree(g1, g2, ctx);
    lemma_plain_body_agree(g1.cfg(), g2.cfg(), g1.raw_sections(ctx));
}

/// Text found in one rendered section is found in the sections put
/// together.
proof fn lemma_concat_contains(parts: Seq<Seq<char>>, j: int, n: Seq<char>)
    requires
        0 <= j < parts.len(),
        contains(parts[j], n),
    ensures
        contains(concat_rendered(parts), n),
    decreases parts.len(),
{
    let p = parts.drop_last();
    let e = Seq::<char>::empty();
    if j == parts.len() - 1 {
        lemma_contains_within(concat_rendered(p), parts.last(), e, n);
        assert(concat_rendered(p) + parts.last() + e =~= concat_rendered(parts));
    } else {
        assert(p[j] == parts[j]);
        lemma_concat_contains(p, j, n);
        lemma_contains_within(e, concat_rendered(p), parts.last(), n);
        assert(e + concat_rendered(p) + parts.last() =~= concat_rendered(parts));
    }
}

/// Removing trailing whitespace keeps every occurrence of a text that does
/// not end in whitespace.
proof fn lemma_trim_end_keeps(s: Seq<char>, n: Seq<char>, i: int)
    requires
        occurs_at(s, n, i),
        n.len() > 0,
        !is_ws(n.last()),
    ensures
        occurs_at(trim_end(s), n, i),
    decreases s.len(),
{
    if s.len() > 0 && is_ws(s.last()) {
        assert(s[i + n.len() - 1] == n.last()) by {
            assert(s.subrange(i, i + n.len())[n.len() - 1] == n[n.len() - 1]);
        }
        assert(i + n.len() < s.len());
        assert(s.drop_last().subrange(i, i + n.len()) =~= s.subrange(i, i + n.len()));
        lemma_trim_end_keeps(s.drop_last(), n, i);
    }
}

/// With tool permissions on, the permissions section is among the sections
/// built.
proof fn lemma_raw_has_permissions(g: SystemPromptGenerator, ctx: ResolvedContext) -> (m: int)
    requires
        g.cfg().custom_sections@.len() == 0,
        g.cfg().include_tool_permissions,
    ensures
        0 <= m < g.raw_sections(ctx).len(),
        g.raw_sections(ctx).len() <= 10,
        g.raw_sections(ctx)[m] == (PromptSection::ToolPermissions, tool_permissions_spec(ctx)),
{
    let tp = tool_permissions_spec(ctx);
    let raw = g.raw_sections(ctx);
    let p1 = if ctx.platform_rules@.len() > 0 {
        seq![(PromptSection::Platform, ctx.platform_rules@)]
    } else {
        seq![]
    };
    let p6 = if ctx.skill_descriptions@.len() > 0 {
        seq![(PromptSection::SkillDescriptions, ctx.skill_descriptions@)]
    } else {
        seq![]
    };
    let p7 = if ctx.loaded_skills@.len() > 0 {
        seq![(PromptSection::LoadedSkills, loaded_skills_spec(ctx.loaded_skills@))]
    } else {
        seq![]
    };
    let pre = p1 + opt_section(PromptSection::Organization, ctx.org_conventions) + opt_section(
        PromptSection::User,
        ctx.user_preferences,
    ) + opt_section(PromptSection::Memory, ctx.memory_context) + opt_section(
        PromptSection::Session,
        ctx.session_context,
    ) + p6 + p7 + opt_section(PromptSection::Task, ctx.task_instructions) + opt_section(
        PromptSection::SubAgent,
        ctx.subagent_context,
    );
    assert(custom_views(g.cfg().custom_sections@) =~= Seq::<(PromptSection, Seq<char>)>::empty());
    assert(raw =~= pre + seq![(PromptSection::ToolPermissions, tp)]);
    pre.len() as int
}

/// Every kept section has a place in the ordered sections.
proof fn lemma_ordered_has(c: PromptConfig, kept: Seq<(PromptSection, Seq<char>)>, m: int) -> (j: int)
    requires
        0 <= m < kept.len(),
        kept.len() <= usize::MAX,
    ensures
        0 <= j < c.ordered(kept).len(),
        c.ordered(kept)[j] == kept[m],
{
    broadcast use vstd::seq_lib::group_to_multiset_ensures;

    let keys = Seq::new(kept.len(), |k: int| c.key_of(kept[k].0));
    let kp = keyed_positions(keys);
    let pos = sorted_positions(keys);
    crate::sort::lemma_sort_ascending(kp);
    let e = kp[m];
    assert(kp.contains(e));
    assert(kp.to_multiset().count(e) > 0);
    assert(pos.to_multiset().count(e) > 0);
    assert(pos.contains(e));
    let j = choose|j: int| 0 <= j < pos.len() && pos[j] == e;
    assert(e.1 as int == m);
    assert(c.ordered(kept)[j] == kept[pos[j].1 as int]);
    j
}

/// Under a plain configuration, text that does not end in whitespace and
/// occurs in the content of a kept section occurs in the trimmed body.
proof fn lemma_section_text_in_body(
    c: PromptConfig,
    kept: Seq<(PromptSection, Seq<char>)>,
    m: int,
    n: Seq<char>,
)
    requires
        c.is_plain(),
        0 <= m < kept.len(),
        kept.len() <= usize::MAX,
        contains(kept[m].1, n),
        n.len() > 0,
        !is_ws(n.last()),
    ensures
        contains(trim_end(c.body(kept)), n),
{
    let j = lemma_ordered_has(c, kept, m);
    let ord = c.ordered(kept);
    let sec = ord[j].0;
    let content = ord[j].1;
    let parts = Seq::new(ord.len(), |k: int| c.render_section(ord[k].0, ord[k].1));
    assert(budget_lookup(c.section_budgets@, sec) is None);
    let head = if c.include_headers && !starts_with(trim(content), "#"@) {
        sec.header_spec() + "\n\n"@
    } else {
        seq![]
    };
    assert(parts[j] == head + content + "\n\n"@);
    lemma_contains_within(head, content, "\n\n"@, n);
    lemma_concat_contains(parts, j, n);
    let body = concat_rendered(parts);
    let w = choose|w: int| occurs_at(body, n, w);
    lemma_trim_end_keeps(body, n, w);
}

/// Under a plain configuration, text that does not end in whitespace and
/// occurs in the content of a built section occurs in the prompt.
proof fn lemma_section_text_in_prompt(
    g: SystemPromptGenerator,
    ctx: ResolvedContext,
    m: int,
    n: Seq<char>,
)
    requires
        g.cfg().is_plain(),
        0 <= m < g.raw_sections(ctx).len(),
        g.raw_sections(ctx).len() <= usize::MAX,
        contains(g.raw_sections(ctx)[m].1, n),
        n.len() > 0,
        !is_ws(n.last()),
    ensures
        contains(g.generate_spec(ctx), n),
{
    lemma_plain_kept(g, ctx);
    lemma_section_text_in_body(g.cfg(), g.kept_sections(ctx), m, n);
}

/// With tool permissions on, the prompt of a plain generator (no skipped,
/// reordered, budgeted or custom sections, no total limit) lists every
/// blocked tool of the context as a bullet marked blocked, `- `t` ❌`,
/// whatever the allow list and the permission mode.
pub proof fn lemma_prompt_lists_blocked_tools(g: SystemPromptGenerator, ctx: ResolvedContext)
    requires
        g.cfg().is_plain(),
        g.cfg().include_tool_permissions,
    ensures
        forall|i: int|
            0 <= i < ctx.blocked_tools@.len() ==> contains(
                g.generate_spec(ctx),
                "- `"@ + (#[trigger] ctx.blocked_tools@[i])@ + "` ❌"@,
            ),
{
    lemma_blocked_tools_listed(ctx);
    let m = lemma_raw_has_permissions(g, ctx);
    assert forall|i: int| 0 <= i < ctx.blocked_tools@.len() implies contains(
        g.generate_spec(ctx),
        "- `"@ + (#[trigger] ctx.blocked_tools@[i])@ + "` ❌"@,
    ) by {
        let n = "- `"@ + ctx.blocked_tools@[i]@ + "` ❌"@;
        reveal_strlit("` ❌");
        assert(n.last() == '❌');
        lemma_section_text_in_prompt(g, ctx, m, n);
    }
}

} // verus!
