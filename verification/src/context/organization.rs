//! The organization layer of the context hierarchy: team-wide code style,
//! conventions, knowledge and shared memory, rendered into the prompt.
use vstd::prelude::*;

use crate::context::resolver::{ContextLayer, ContextPriority, ResolvedContext};
use crate::text::{concat_all, push_str, to_owned};

verus! {

/// `uuid::Uuid::nil()`.  Nothing is said of it: a `Uuid` has no view here.
#[verifier::external_body]
pub(crate) fn nil_uuid() -> uuid::Uuid {
    uuid::Uuid::nil()
}

/// Organization-level context.
#[derive(Debug, Clone)]
pub struct OrganizationContext {
    /// Organization identifier.
    pub id: uuid::Uuid,
    /// Organization name.
    pub name: String,
    /// Organization-specific rules and guidelines.
    pub context_rules: OrganizationRules,
    /// Shared memory entries accessible to all members.
    pub shared_memory: Vec<String>,
}

impl Default for OrganizationContext {
    fn default() -> (r: Self)
        ensures
            r.name@.len() == 0,
            r.context_rules.code_style is None,
            r.context_rules.conventions is None,
            r.context_rules.team_knowledge@.len() == 0,
            r.shared_memory@.len() == 0,
    {
        OrganizationContext {
            id: nil_uuid(),
            name: String::new(),
            context_rules: OrganizationRules::default(),
            shared_memory: Vec::new(),
        }
    }
}

/// Organization rules and guidelines.
#[derive(Debug, Clone)]
pub struct OrganizationRules {
    /// Code style rules.
    pub code_style: Option<CodeStyleRules>,
    /// Convention rules (commits, branches, ...).
    pub conventions: Option<ConventionRules>,
    /// Team knowledge entries.
    pub team_knowledge: Vec<String>,
}

impl Default for OrganizationRules {
    fn default() -> (r: Self)
        ensures
            r.code_style is None,
            r.conventions is None,
            r.team_knowledge@.len() == 0,
    {
        OrganizationRules { code_style: None, conventions: None, team_knowledge: Vec::new() }
    }
}

/// Code style rules of an organization.
#[derive(Debug, Clone)]
pub struct CodeStyleRules {
    /// Primary programming language.
    pub language: String,
    /// Formatting tool or style.
    pub formatting: Option<String>,
    /// Testing framework or approach.
    pub testing: Option<String>,
    /// Linting rules.
    pub linting: Option<String>,
    /// Documentation style.
    pub documentation: Option<String>,
}

impl Default for CodeStyleRules {
    fn default() -> (r: Self)
        ensures
            r.language@.len() == 0,
            r.formatting is None,
            r.testing is None,
            r.linting is None,
            r.documentation is None,
    {
        CodeStyleRules {
            language: String::new(),
            formatting: None,
            testing: None,
            linting: None,
            documentation: None,
        }
    }
}

/// Convention rules of an organization.
#[derive(Debug, Clone)]
pub struct ConventionRules {
    /// Commit message prefix.
    pub commit_prefix: Option<String>,
    /// Branch naming pattern.
    pub branch_pattern: Option<String>,
    /// PR title format.
    pub pr_title_format: Option<String>,
    /// Code review requirements.
    pub review_requirements: Option<String>,
}

impl Default for ConventionRules {
    fn default() -> (r: Self)
        ensures
            r.commit_prefix is None,
            r.branch_pattern is None,
            r.pr_title_format is None,
            r.review_requirements is None,
    {
        ConventionRules {
            commit_prefix: None,
            branch_pattern: None,
            pr_title_format: None,
            review_requirements: None,
        }
    }
}

/// `label` and the value on a line, when there is a value.
pub open spec fn opt_line(label: Seq<char>, o: Option<String>) -> Seq<char> {
    match o {
        Some(v) => label + v@ + "\n"@,
        None => seq![],
    }
}

/// One bullet line per item.
pub open spec fn bullets(items: Seq<String>) -> Seq<char> {
    concat_all(Seq::new(items.len(), |i: int| "- "@ + items[i]@ + "\n"@))
}

/// The code-style block of the conventions.
pub open spec fn code_style_block(c: Option<CodeStyleRules>) -> Seq<char> {
    match c {
        Some(cs) => "### Code Style\n"@ + "- Language: "@ + cs.language@ + "\n"@ + opt_line(
            "- Formatting: "@,
            cs.formatting,
        ) + opt_line("- Testing: "@, cs.testing) + opt_line("- Linting: "@, cs.linting) + opt_line(
            "- Documentation: "@,
            cs.documentation,
        ) + "\n"@,
        None => seq![],
    }
}

/// The conventions block of the conventions.
pub open spec fn conventions_block(c: Option<ConventionRules>) -> Seq<char> {
    match c {
        Some(cv) => "### Conventions\n"@ + opt_line("- Commit prefix: "@, cv.commit_prefix)
            + opt_line("- Branch pattern: "@, cv.branch_pattern) + opt_line(
            "- PR title format: "@,
            cv.pr_title_format,
        ) + opt_line("- Review requirements: "@, cv.review_requirements) + "\n"@,
        None => seq![],
    }
}

/// The conventions text an organization puts in the prompt.
pub open spec fn org_conventions_text(o: OrganizationContext) -> Seq<char> {
    "## "@ + o.name@ + " Organization Conventions\n\n"@ + code_style_block(o.context_rules.code_style)
        + conventions_block(o.context_rules.conventions) + (if o.context_rules.team_knowledge@.len()
        > 0 {
        "### Team Knowledge\n"@ + bullets(o.context_rules.team_knowledge@) + "\n"@
    } else {
        seq![]
    }) + (if o.shared_memory@.len() > 0 {
        "### Shared Memory\n"@ + bullets(o.shared_memory@)
    } else {
        seq![]
    })
}

/// Append `label`, the value and a line break, when there is a value.
fn push_opt_line(out: &mut String, label: &str, o: &Option<String>)
    ensures
        final(out)@ == old(out)@ + opt_line(label@, *o),
{
    match o {
        Some(v) => {
            push_str(out, label);
            push_str(out, v.as_str());
            push_str(out, "\n");
        },
        None => {
            proof {
                assert(old(out)@ + opt_line(label@, *o) =~= old(out)@);
            }
        },
    }
}

/// Append one bullet line per item.
fn push_bullets(out: &mut String, items: &Vec<String>)
    ensures
        final(out)@ == old(out)@ + bullets(items@),
{
    let ghost start = out@;
    let ghost lines = Seq::new(items@.len(), |i: int| "- "@ + items@[i]@ + "\n"@);
    let mut i: usize = 0;
    proof {
        assert(lines.take(0) =~= Seq::<Seq<char>>::empty());
        assert(out@ =~= start + concat_all(lines.take(0)));
    }
    while i < items.len()
        invariant
            0 <= i <= items@.len(),
            lines == Seq::new(items@.len(), |i: int| "- "@ + items@[i]@ + "\n"@),
            out@ == start + concat_all(lines.take(i as int)),
        decreases items.len() - i,
    {
        push_str(out, "- ");
        push_str(out, items[i].as_str());
        push_str(out, "\n");
        proof {
            assert(lines.take(i + 1).drop_last() =~= lines.take(i as int));
            assert(out@ =~= start + concat_all(lines.take(i + 1)));
        }
        i = i + 1;
    }
    proof {
        assert(lines.take(items@.len() as int) =~= lines);
    }
}

/// Append the code-style block.
fn push_code_style(out: &mut String, c: &Option<CodeStyleRules>)
    ensures
        final(out)@ == old(out)@ + code_style_block(*c),
{
    if let Some(cs) = c {
        push_str(out, "### Code Style\n");
        push_str(out, "- Language: ");
        push_str(out, cs.language.as_str());
        push_str(out, "\n");
        let ghost q = out@;
        push_opt_line(out, "- Formatting: ", &cs.formatting);
        push_opt_line(out, "- Testing: ", &cs.testing);
        push_opt_line(out, "- Linting: ", &cs.linting);
        push_opt_line(out, "- Documentation: ", &cs.documentation);
        push_str(out, "\n");
        proof {
            assert(out@ =~= old(out)@ + code_style_block(*c));
        }
    } else {
        proof {
            assert(old(out)@ + code_style_block(*c) =~= old(out)@);
        }
    }
}

/// Append the conventions block.
fn push_conventions(out: &mut String, c: &Option<ConventionRules>)
    ensures
        final(out)@ == old(out)@ + conventions_block(*c),
{
    if let Some(cv) = c {
        push_str(out, "### Conventions\n");
        push_opt_line(out, "- Commit prefix: ", &cv.commit_prefix);
        push_opt_line(out, "- Branch pattern: ", &cv.branch_pattern);
        push_opt_line(out, "- PR title format: ", &cv.pr_title_format);
        push_opt_line(out, "- Review requirements: ", &cv.review_requirements);
        push_str(out, "\n");
        proof {
            assert(out@ =~= old(out)@ + conventions_block(*c));
        }
    } else {
        proof {
            assert(old(out)@ + conventions_block(*c) =~= old(out)@);
        }
    }
}

impl OrganizationContext {
    /// The conventions text this organization puts in the prompt.
    pub fn conventions_text(&self) -> (r: String)
        ensures
            r@ == org_conventions_text(*self),
    {
        let mut c = to_owned("## ");
        push_str(&mut c, self.name.as_str());
        push_str(&mut c, " Organization Conventions\n\n");
        push_code_style(&mut c, &self.context_rules.code_style);
        push_conventions(&mut c, &self.context_rules.conventions);
        let ghost p2 = c@;
        if self.context_rules.team_knowledge.len() > 0 {
            push_str(&mut c, "### Team Knowledge\n");
            push_bullets(&mut c, &self.context_rules.team_knowledge);
            push_str(&mut c, "\n");
        }
        let ghost p3 = c@;
        if self.shared_memory.len() > 0 {
            push_str(&mut c, "### Shared Memory\n");
            push_bullets(&mut c, &self.shared_memory);
        }
        proof {
            assert(p3 =~= p2 + (if self.context_rules.team_knowledge@.len() > 0 {
                "### Team Knowledge\n"@ + bullets(self.context_rules.team_knowledge@) + "\n"@
            } else {
                seq![]
            }));
            assert(c@ =~= p3 + (if self.shared_memory@.len() > 0 {
                "### Shared Memory\n"@ + bullets(self.shared_memory@)
            } else {
                seq![]
            }));
        }
        c
    }
}

impl ContextLayer for OrganizationContext {
    open spec fn name_spec(&self) -> Seq<char> {
        "organization"@
    }

    open spec fn priority_spec(&self) -> ContextPriority {
        ContextPriority::Organization
    }

    open spec fn applies(&self, before: ResolvedContext, after: ResolvedContext) -> bool {
        &&& after.org_conventions matches Some(c) && c@ == org_conventions_text(*self)
        &&& after == (ResolvedContext {
            org_conventions: after.org_conventions,
            ..before
        })
    }

    fn layer_name(&self) -> (r: &str)
        ensures
            r@ == "organization"@,
    {
        "organization"
    }

    fn priority(&self) -> (r: ContextPriority)
        ensures
            r == ContextPriority::Organization,
    {
        assert(self.priority_spec() == ContextPriority::Organization);
        ContextPriority::Organization
    }

    /// Set the resolved organization conventions to this organization's text.
    fn apply_to(&self, resolved: &mut ResolvedContext)
    {
        resolved.org_conventions = Some(self.conventions_text());
    }
}

/// Loads organization context; without a database it finds none.
#[derive(Debug)]
pub struct OrganizationContextLoader {
    database: bool,
}

impl OrganizationContextLoader {
    /// A loader without a database.
    pub fn new() -> (r: Self)
        ensures
            !r.has_database(),
    {
        OrganizationContextLoader { database: false }
    }

    /// Whether the loader has a database to read from.
    pub closed spec fn has_database(&self) -> bool {
        self.database
    }
}

impl Default for OrganizationContextLoader {
    fn default() -> (r: Self)
        ensures
            !r.has_database(),
    {
        Self::new()
    }
}

} // verus!
