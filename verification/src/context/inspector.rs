//! Inspection of a composed prompt: per-section token counts against the
//! budget, and content hashes for change detection.
use vstd::prelude::*;

use vstd::string::StrSliceExecFns;
use vstd::utf8::encode_utf8;

use crate::context::prompt_generator::{lemma_plain_can_generate, SystemPromptGenerator};
use crate::context::resolver::{LoadedSkill, ResolvedContext};
use crate::text::{byte_len, hex_bytes, push_hex_bytes, push_str, to_owned};

verus! {

/// The SHA-256 digest of a byte sequence.
pub uninterp spec fn sha256(data: Seq<u8>) -> Seq<u8>;

/// `sha2::Sha256::digest`, as a 32-byte array.  The digest is named, not
/// described: it is a function of the bytes alone.
#[verifier::external_body]
fn sha256_digest(data: &[u8]) -> (r: [u8; 32])
    ensures
        r@ == sha256(data@),
{
    <sha2::Sha256 as sha2::Digest>::digest(data).into()
}

/// The lowercase hexadecimal SHA-256 digest of a string's UTF-8 bytes.
pub fn sha256_hex(content: &str) -> (r: String)
    ensures
        r@ == hex_bytes(sha256(encode_utf8(content@))),
        sha256(encode_utf8(content@)).len() == 32,
        r@.len() == 64,
{
    let bytes = content.as_bytes_vec();
    let digest = sha256_digest(bytes.as_slice());
    let mut out = String::new();
    push_hex_bytes(&mut out, &digest);
    proof {
        assert(out@ =~= hex_bytes(digest@));
        assert(digest@.len() == 32);
        crate::text::lemma_hex_bytes_len(digest@);
    }
    out
}

/// Information about one section of a prompt.
#[derive(Debug, Clone)]
pub struct SectionInfo {
    /// Section name (e.g., "L1 Platform Rules").
    pub name: String,
    /// Source file or origin of the content.
    pub source: String,
    /// Estimated token count for this section.
    pub tokens: usize,
    /// Token budget for this section (if any).
    pub budget: Option<usize>,
    /// Whether this section was truncated.
    pub truncated: bool,
    /// SHA-256 hash of the content, for change detection.
    pub content_hash: String,
}

impl SectionInfo {
    /// A section of the given content: a quarter-token per byte, no budget,
    /// not truncated, and the content's SHA-256 digest in hexadecimal.
    pub fn new(name: &str, source: &str, content: &str) -> (r: Self)
        ensures
            r.name@ == name@,
            r.source@ == source@,
            r.tokens == byte_len(content@) / 4,
            r.budget is None,
            !r.truncated,
            r.content_hash@ == hex_bytes(sha256(encode_utf8(content@))),
            sha256(encode_utf8(content@)).len() == 32,
            r.content_hash@.len() == 64,
    {
        SectionInfo {
            name: to_owned(name),
            source: to_owned(source),
            tokens: SystemPromptGenerator::estimate_tokens(content),
            budget: None,
            truncated: false,
            content_hash: sha256_hex(content),
        }
    }

    /// Set the token budget.
    pub fn with_budget(self, budget: usize) -> (r: Self)
        ensures
            r == (SectionInfo { budget: Some(budget), ..self }),
    {
        let mut s = self;
        s.budget = Some(budget);
        s
    }

    /// Mark the section as truncated or not.
    pub fn with_truncated(self, truncated: bool) -> (r: Self)
        ensures
            r == (SectionInfo { truncated, ..self }),
    {
        let mut s = self;
        s.truncated = truncated;
        s
    }
}

/// Where the user-preference layer comes from: the user's instructions file
/// and the user database.
pub const USER_PREFERENCES_SOURCE: &'static str = "user instructions file + database/users";

/// Name, source and content of a section, when the content is there.
pub open spec fn opt_triple(name: Seq<char>, source: Seq<char>, o: Option<String>) -> Seq<
    (Seq<char>, Seq<char>, Seq<char>),
> {
    match o {
        Some(c) => seq![(name, source, c@)],
        None => seq![],
    }
}

/// Name, source and content of each loaded skill's section.
pub open spec fn skill_triples(skills: Seq<LoadedSkill>) -> Seq<(Seq<char>, Seq<char>, Seq<char>)> {
    Seq::new(
        skills.len(),
        |i: int|
            ("Loaded Skill: "@ + skills[i].name@, "skills/"@ + skills[i].name@, skills[i].content@),
    )
}

/// Name, source and content of each section a context's prompt shows, in
/// order: the layers, the skill list, each loaded skill, the task and the
/// sub-agent context.
pub open spec fn inspected_sections(ctx: ResolvedContext) -> Seq<(Seq<char>, Seq<char>, Seq<char>)> {
    (if ctx.platform_rules@.len() > 0 {
        seq![("L1 Platform Rules"@, "config/platform-rules.yaml"@, ctx.platform_rules@)]
    } else {
        seq![]
    }) + opt_triple("L2 Organization Conventions"@, "database/organizations"@, ctx.org_conventions)
        + opt_triple("L3 User Preferences"@, USER_PREFERENCES_SOURCE@, ctx.user_preferences)
        + opt_triple("L4 Session Context"@, "session_state"@, ctx.session_context) + (
    if ctx.skill_descriptions@.len() > 0 {
        seq![("Skill Descriptions"@, "skill_registry"@, ctx.skill_descriptions@)]
    } else {
        seq![]
    }) + skill_triples(ctx.loaded_skills@) + opt_triple(
        "L5 Task Instructions"@,
        "task_context"@,
        ctx.task_instructions,
    ) + opt_triple("L6 SubAgent Context"@, "subagent_fork"@, ctx.subagent_context)
}

/// Estimated tokens of the contents, summed.
pub open spec fn tokens_sum(t: Seq<(Seq<char>, Seq<char>, Seq<char>)>) -> nat
    decreases t.len(),
{
    if t.len() == 0 {
        0
    } else {
        tokens_sum(t.drop_last()) + byte_len(t.last().2) / 4
    }
}

/// The section info describes the given name, source and content.
pub open spec fn describes(info: SectionInfo, t: (Seq<char>, Seq<char>, Seq<char>)) -> bool {
    &&& info.name@ == t.0
    &&& info.source@ == t.1
    &&& info.tokens == byte_len(t.2) / 4
    &&& info.budget is None
    &&& !info.truncated
    &&& info.content_hash@ == hex_bytes(sha256(encode_utf8(t.2)))
}

/// Inspection of a composed prompt.  The utilization is `total_tokens` over
/// `total_budget` (nothing when the budget is 0, unlimited).
#[derive(Debug, Clone)]
pub struct PromptInspection {
    /// Total estimated tokens in the prompt.
    pub total_tokens: usize,
    /// Total token budget (0 = unlimited).
    pub total_budget: usize,
    /// Breakdown by section.
    pub sections: Vec<SectionInfo>,
    /// The full rendered prompt text.
    pub rendered_prompt: String,
}

impl PromptInspection {
    /// Inspect the prompt of a resolved context against a token budget: one
    /// entry per shown section, their summed tokens, and the prompt the
    /// default generator renders.
    pub fn from_resolved(ctx: &ResolvedContext, max_tokens: usize) -> (r: Self)
        requires
            tokens_sum(inspected_sections(*ctx)) <= usize::MAX,
        ensures
            r.sections@.len() == inspected_sections(*ctx).len(),
            forall|i: int|
                0 <= i < r.sections@.len() ==> describes(
                    #[trigger] r.sections@[i],
                    inspected_sections(*ctx)[i],
                ),
            r.total_tokens == tokens_sum(inspected_sections(*ctx)),
            r.total_budget == max_tokens,
            exists|g: SystemPromptGenerator|
                g.cfg().is_default() && r.rendered_prompt@ == #[trigger] g.generate_spec(*ctx),
    {
        let ghost want = inspected_sections(*ctx);
        let mut sections: Vec<SectionInfo> = Vec::new();
        let ghost mut done: Seq<(Seq<char>, Seq<char>, Seq<char>)> = seq![];
        if !ctx.platform_rules.as_str().is_empty() {
            push_section(
                &mut sections,
                Ghost(done),
                "L1 Platform Rules",
                "config/platform-rules.yaml",
                ctx.platform_rules.as_str(),
            );
            proof {
                done = done.push(("L1 Platform Rules"@, "config/platform-rules.yaml"@, ctx.platform_rules@));
            }
        }
        let ghost d1 = done;
        push_opt(&mut sections, Ghost(done), "L2 Organization Conventions", "database/organizations", &ctx.org_conventions);
        proof { done = done + opt_triple("L2 Organization Conventions"@, "database/organizations"@, ctx.org_conventions); }
        push_opt(&mut sections, Ghost(done), "L3 User Preferences", USER_PREFERENCES_SOURCE, &ctx.user_preferences);
        proof { done = done + opt_triple("L3 User Preferences"@, USER_PREFERENCES_SOURCE@, ctx.user_preferences); }
        push_opt(&mut sections, Ghost(done), "L4 Session Context", "session_state", &ctx.session_context);
        proof { done = done + opt_triple("L4 Session Context"@, "session_state"@, ctx.session_context); }
        let ghost d4 = done;
        if !ctx.skill_descriptions.as_str().is_empty() {
            push_section(
                &mut sections,
                Ghost(done),
                "Skill Descriptions",
                "skill_registry",
                ctx.skill_descriptions.as_str(),
            );
            proof {
                done = done.push(("Skill Descriptions"@, "skill_registry"@, ctx.skill_descriptions@));
            }
        }
        let ghost d5 = done;
        let mut k: usize = 0;
        while k < ctx.loaded_skills.len()
            invariant
                0 <= k <= ctx.loaded_skills@.len(),
                sections@.len() == done.len(),
                forall|i: int| 0 <= i < done.len() ==> describes(#[trigger] sections@[i], done[i]),
                done == d5 + skill_triples(ctx.loaded_skills@).take(k as int),
            decreases ctx.loaded_skills.len() - k,
        {
            let skill = &ctx.loaded_skills[k];
            let mut name = to_owned("Loaded Skill: ");
            push_str(&mut name, skill.name.as_str());
            let mut source = to_owned("skills/");
            push_str(&mut source, skill.name.as_str());
            push_section(&mut sections, Ghost(done), name.as_str(), source.as_str(), skill.content.as_str());
            proof {
                let t = skill_triples(ctx.loaded_skills@);
                assert(t.take(k + 1) =~= t.take(k as int).push(t[k as int]));
                done = done.push(t[k as int]);
            }
            k = k + 1;
        }
        proof {
            assert(skill_triples(ctx.loaded_skills@).take(ctx.loaded_skills@.len() as int) =~= skill_triples(ctx.loaded_skills@));
        }
        push_opt(&mut sections, Ghost(done), "L5 Task Instructions", "task_context", &ctx.task_instructions);
        proof { done = done + opt_triple("L5 Task Instructions"@, "task_context"@, ctx.task_instructions); }
        push_opt(&mut sections, Ghost(done), "L6 SubAgent Context", "subagent_fork", &ctx.subagent_context);
        proof {
            done = done + opt_triple("L6 SubAgent Context"@, "subagent_fork"@, ctx.subagent_context);
            assert(done =~= want);
        }
        let mut total: usize = 0;
        let mut i: usize = 0;
        while i < sections.len()
            invariant
                0 <= i <= sections@.len(),
                sections@.len() == want.len(),
                forall|j: int| 0 <= j < want.len() ==> describes(#[trigger] sections@[j], want[j]),
                tokens_sum(want) <= usize::MAX,
                total == tokens_sum(want.take(i as int)),
            decreases sections.len() - i,
        {
            proof {
                assert(want.take(i + 1).drop_last() =~= want.take(i as int));
                assert(describes(sections@[i as int], want[i as int]));
                lemma_tokens_sum_prefix(want, i + 1);
            }
            total = total + sections[i].tokens;
            i = i + 1;
        }
        proof {
            assert(want.take(want.len() as int) =~= want);
        }
        let generator = SystemPromptGenerator::new();
        proof {
            lemma_plain_can_generate(generator, *ctx);
        }
        let rendered_prompt = generator.generate(ctx);
        PromptInspection { total_tokens: total, total_budget: max_tokens, sections, rendered_prompt }
    }
}

/// A prefix's summed tokens are at most the whole's.
pub proof fn lemma_tokens_sum_prefix(t: Seq<(Seq<char>, Seq<char>, Seq<char>)>, k: int)
    requires
        0 <= k <= t.len(),
    ensures
        tokens_sum(t.take(k)) <= tokens_sum(t),
    decreases t.len() - k,
{
    if k < t.len() {
        lemma_tokens_sum_prefix(t, k + 1);
        assert(t.take(k + 1).drop_last() =~= t.take(k));
    } else {
        assert(t.take(k) =~= t);
    }
}

/// Append the info of one section.
fn push_section(
    sections: &mut Vec<SectionInfo>,
    Ghost(done): Ghost<Seq<(Seq<char>, Seq<char>, Seq<char>)>>,
    name: &str,
    source: &str,
    content: &str,
)
    requires
        old(sections)@.len() == done.len(),
        forall|i: int| 0 <= i < done.len() ==> describes(#[trigger] old(sections)@[i], done[i]),
    ensures
        final(sections)@.len() == done.len() + 1,
        forall|i: int|
            0 <= i < done.len() + 1 ==> describes(
                #[trigger] final(sections)@[i],
                done.push((name@, source@, content@))[i],
            ),
{
    sections.push(SectionInfo::new(name, source, content));
}

/// Append the info of a section whose content may be absent.
fn push_opt(
    sections: &mut Vec<SectionInfo>,
    Ghost(done): Ghost<Seq<(Seq<char>, Seq<char>, Seq<char>)>>,
    name: &str,
    source: &str,
    content: &Option<String>,
)
    requires
        old(sections)@.len() == done.len(),
        forall|i: int| 0 <= i < done.len() ==> describes(#[trigger] old(sections)@[i], done[i]),
    ensures
        final(sections)@.len() == (done + opt_triple(name@, source@, *content)).len(),
        forall|i: int|
            0 <= i < final(sections)@.len() ==> describes(
                #[trigger] final(sections)@[i],
                (done + opt_triple(name@, source@, *content))[i],
            ),
{
    if let Some(c) = content {
        push_section(sections, Ghost(done), name, source, c.as_str());
        proof {
            assert(done + opt_triple(name@, source@, *content) =~= done.push((name@, source@, c@)));
        }
    } else {
        proof {
            assert(done + opt_triple(name@, source@, *content) =~= done);
        }
    }
}

} // verus!
