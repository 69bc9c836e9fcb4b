//! The user layer of the context hierarchy: coding-style and communication
//! preferences, the user's instructions file and remembered facts.
use vstd::prelude::*;

use std::path::{Path, PathBuf};

use crate::context::organization::nil_uuid;
use crate::context::platform::{borrowed_path, owned_path};
use crate::context::resolver::{ContextLayer, ContextPriority, ResolvedContext};
use crate::json::{json_text, json_to_text};
use crate::text::{decimal, ends_with, push_decimal, push_str, str_ends_with, to_owned};

verus! {

/// Coding style preferences.
#[derive(Debug, Clone)]
pub struct CodingStyle {
    /// Whether to prefer explicit type annotations.
    pub prefer_explicit_types: bool,
    /// Maximum line length preference.
    pub max_line_length: Option<usize>,
    /// Whether to prefer functional programming patterns.
    pub prefer_functional: bool,
}

impl Default for CodingStyle {
    fn default() -> (r: Self)
        ensures
            !r.prefer_explicit_types,
            r.max_line_length is None,
            !r.prefer_functional,
    {
        CodingStyle { prefer_explicit_types: false, max_line_length: None, prefer_functional: false }
    }
}

/// Communication preferences.
#[derive(Debug, Clone)]
pub struct CommunicationPrefs {
    /// Verbosity level: "minimal", "normal" or "detailed".
    pub verbosity: String,
    /// Whether to include explanations with code.
    pub include_explanations: bool,
}

/// The verbosity used when none is given.
pub fn default_verbosity() -> (r: String)
    ensures
        r@ == "normal"@,
{
    to_owned("normal")
}

/// Explanations are included unless said otherwise.
pub fn default_true() -> (r: bool)
    ensures
        r,
{
    true
}

impl Default for CommunicationPrefs {
    fn default() -> (r: Self)
        ensures
            r.verbosity@ == "normal"@,
            r.include_explanations,
    {
        CommunicationPrefs { verbosity: default_verbosity(), include_explanations: default_true() }
    }
}

/// The name of the user's instructions file, looked up in the loader's
/// directory.
pub const INSTRUCTIONS_FILE_NAME: &'static str = "AGENTS.md";

/// User preferences for code generation and communication.
#[derive(Debug, Clone)]
pub struct UserPreferences {
    /// Coding style, if the user set one.
    pub coding_style: Option<CodingStyle>,
    /// Communication preferences, if the user set them.
    pub communication: Option<CommunicationPrefs>,
    /// Free-form preferences, by key, in the order they are listed.
    pub custom: Vec<(String, serde_json::Value)>,
}

impl Default for UserPreferences {
    fn default() -> (r: Self)
        ensures
            r.coding_style is None,
            r.communication is None,
            r.custom@.len() == 0,
    {
        UserPreferences { coding_style: None, communication: None, custom: Vec::new() }
    }
}

/// A remembered fact about the user.  The confidence, a fraction in `[0, 1]`,
/// is held as the bit pattern of its `f32`.
#[derive(Debug, Clone)]
pub struct MemoryItem {
    /// Category of the memory (e.g., "preference", "fact", "pattern").
    pub category: String,
    /// Key identifier for the memory.
    pub key: String,
    /// The memory value.
    pub value: serde_json::Value,
    /// Bits of the `f32` confidence score.
    pub confidence_bits: u32,
    /// Source of the memory (e.g., "explicit", "inferred", "conversation").
    pub source: String,
}

/// Bits of `0.7f32`, the least confidence at which a memory is shown.
pub const MIN_CONFIDENCE_BITS: u32 = 0x3F33_3333;

/// Bits of `f32::INFINITY`.
pub const INFINITY_BITS: u32 = 0x7F80_0000;

/// The `f32` with these bits is at least `0.7`.  In IEEE-754 single
/// precision the values from `0.7` up to positive infinity are exactly the bit
/// patterns from that of `0.7` to that of infinity: negative numbers have the
/// sign bit set, and NaNs lie above infinity.
pub open spec fn confident(bits: u32) -> bool {
    MIN_CONFIDENCE_BITS <= bits <= INFINITY_BITS
}

/// User-level context.
#[derive(Debug, Clone)]
pub struct UserContext {
    /// The user.
    pub user_id: uuid::Uuid,
    /// The user's preferences.
    pub preferences: UserPreferences,
    /// The content of the user's instructions file, if there is one.
    pub instructions_content: Option<String>,
    /// Remembered facts.
    pub memory_items: Vec<MemoryItem>,
}

impl Default for UserContext {
    /// The nil user with default preferences, no instructions and no memory.
    fn default() -> (r: Self)
        ensures
            r.preferences.coding_style is None,
            r.preferences.communication is None,
            r.preferences.custom@.len() == 0,
            r.instructions_content is None,
            r.memory_items@.len() == 0,
    {
        UserContext {
            user_id: nil_uuid(),
            preferences: UserPreferences::default(),
            instructions_content: None,
            memory_items: Vec::new(),
        }
    }
}

/// The coding-style lines.
pub open spec fn coding_lines(c: CodingStyle) -> Seq<char> {
    (if c.prefer_explicit_types {
        "- Prefer explicit type annotations\n"@
    } else {
        seq![]
    }) + (match c.max_line_length {
        Some(n) => "- Max line length: "@ + decimal(n as nat) + "\n"@,
        None => seq![],
    }) + (if c.prefer_functional {
        "- Prefer functional programming patterns\n"@
    } else {
        seq![]
    })
}

/// The communication lines.
pub open spec fn communication_lines(c: CommunicationPrefs) -> Seq<char> {
    "- Verbosity: "@ + c.verbosity@ + "\n"@ + if !c.include_explanations {
        "- Skip explanations, show code only\n"@
    } else {
        seq![]
    }
}

/// One `- key: value` line per entry, the value as JSON text.
pub open spec fn entry_lines(entries: Seq<(String, serde_json::Value)>) -> Seq<char>
    decreases entries.len(),
{
    if entries.len() == 0 {
        seq![]
    } else {
        entry_lines(entries.drop_last()) + "- "@ + entries.last().0@ + ": "@ + json_text(
            entries.last().1,
        ) + "\n"@
    }
}

/// One line per confident memory, in order.
pub open spec fn memory_lines(items: Seq<MemoryItem>) -> Seq<char>
    decreases items.len(),
{
    if items.len() == 0 {
        seq![]
    } else {
        memory_lines(items.drop_last()) + if confident(items.last().confidence_bits) {
            "- "@ + items.last().key@ + ": "@ + json_text(items.last().value) + "\n"@
        } else {
            seq![]
        }
    }
}

/// The user preferences section a user adds to the prompt.
pub open spec fn user_prefs_text(u: UserContext) -> Seq<char> {
    "## User Preferences\n\n"@ + (match u.preferences.coding_style {
        Some(c) => coding_lines(c),
        None => seq![],
    }) + (match u.preferences.communication {
        Some(c) => communication_lines(c),
        None => seq![],
    }) + (if u.preferences.custom@.len() > 0 {
        "\n### Custom Preferences\n\n"@ + entry_lines(u.preferences.custom@)
    } else {
        seq![]
    }) + (match u.instructions_content {
        Some(md) => "\n### From the instructions file\n\n"@ + md@ + if ends_with(md@, "\n"@) {
            seq![]
        } else {
            "\n"@
        },
        None => seq![],
    }) + (if memory_lines(u.memory_items@).len() > 0 {
        "\n### User Memory\n\n"@ + memory_lines(u.memory_items@)
    } else {
        seq![]
    })
}

impl UserContext {
    /// The context of a user with default preferences, the given instructions
    /// file content and no memory.
    pub fn with_instructions(user_id: uuid::Uuid, instructions: Option<String>) -> (r: Self)
        ensures
            r.user_id == user_id,
            r.preferences.coding_style is None,
            r.preferences.communication is None,
            r.preferences.custom@.len() == 0,
            r.instructions_content == instructions,
            r.memory_items@.len() == 0,
    {
        UserContext {
            user_id,
            preferences: UserPreferences::default(),
            instructions_content: instructions,
            memory_items: Vec::new(),
        }
    }

    /// Appends the coding-style and communication lines.
    fn push_style_lines(&self, prefs: &mut String)
        ensures
            final(prefs)@ == old(prefs)@ + (match self.preferences.coding_style {
                Some(c) => coding_lines(c),
                None => seq![],
            }) + (match self.preferences.communication {
                Some(c) => communication_lines(c),
                None => seq![],
            }),
    {
        let ghost start = prefs@;
        if let Some(coding) = &self.preferences.coding_style {
            if coding.prefer_explicit_types {
                push_str(prefs, "- Prefer explicit type annotations\n");
            }
            if let Some(max_len) = coding.max_line_length {
                push_str(prefs, "- Max line length: ");
                push_decimal(prefs, max_len as u64);
                push_str(prefs, "\n");
            }
            if coding.prefer_functional {
                push_str(prefs, "- Prefer functional programming patterns\n");
            }
            proof {
                assert(prefs@ =~= start + coding_lines(*coding));
            }
        }
        let ghost mid = prefs@;
        if let Some(comm) = &self.preferences.communication {
            push_str(prefs, "- Verbosity: ");
            push_str(prefs, comm.verbosity.as_str());
            push_str(prefs, "\n");
            if !comm.include_explanations {
                push_str(prefs, "- Skip explanations, show code only\n");
            }
            proof {
                assert(prefs@ =~= mid + communication_lines(*comm));
            }
        }
    }

    /// Appends one `- key: value` line per custom preference.
    fn push_custom_lines(&self, prefs: &mut String)
        ensures
            final(prefs)@ == old(prefs)@ + entry_lines(self.preferences.custom@),
    {
        let ghost start = prefs@;
        let entries = &self.preferences.custom;
        let mut i: usize = 0;
        proof {
            assert(entries@.take(0) =~= Seq::<(String, serde_json::Value)>::empty());
        }
        while i < entries.len()
            invariant
                0 <= i <= entries@.len(),
                prefs@ == start + entry_lines(entries@.take(i as int)),
            decreases entries.len() - i,
        {
            push_str(prefs, "- ");
            push_str(prefs, entries[i].0.as_str());
            push_str(prefs, ": ");
            let text = json_to_text(&entries[i].1);
            push_str(prefs, text.as_str());
            push_str(prefs, "\n");
            proof {
                let t = entries@.take(i + 1);
                assert(t.drop_last() =~= entries@.take(i as int));
                assert(t.last() == entries@[i as int]);
                assert(prefs@ =~= start + entry_lines(t));
            }
            i = i + 1;
        }
        proof {
            assert(entries@.take(entries@.len() as int) =~= entries@);
        }
    }

    /// The lines of the confident memories.
    fn memory_text(&self) -> (r: String)
        ensures
            r@ == memory_lines(self.memory_items@),
    {
        let mut out = String::new();
        let items = &self.memory_items;
        let mut i: usize = 0;
        proof {
            assert(items@.take(0) =~= Seq::<MemoryItem>::empty());
        }
        while i < items.len()
            invariant
                0 <= i <= items@.len(),
                out@ == memory_lines(items@.take(i as int)),
            decreases items.len() - i,
        {
            let ghost before = out@;
            let bits = items[i].confidence_bits;
            if MIN_CONFIDENCE_BITS <= bits && bits <= INFINITY_BITS {
                push_str(&mut out, "- ");
                push_str(&mut out, items[i].key.as_str());
                push_str(&mut out, ": ");
                let text = json_to_text(&items[i].value);
                push_str(&mut out, text.as_str());
                push_str(&mut out, "\n");
            }
            proof {
                let t = items@.take(i + 1);
                assert(t.drop_last() =~= items@.take(i as int));
                assert(t.last() == items@[i as int]);
                assert(out@ =~= memory_lines(t));
            }
            i = i + 1;
        }
        proof {
            assert(items@.take(items@.len() as int) =~= items@);
        }
        out
    }

    /// The user preferences section this user adds to the prompt.
    #[verifier::rlimit(40)]
    pub fn preferences_text(&self) -> (r: String)
        ensures
            r@ == user_prefs_text(*self),
    {
        let mut prefs = to_owned("## User Preferences\n\n");
        self.push_style_lines(&mut prefs);
        let ghost a = prefs@;
        if self.preferences.custom.len() > 0 {
            push_str(&mut prefs, "\n### Custom Preferences\n\n");
            self.push_custom_lines(&mut prefs);
        }
        let ghost b = prefs@;
        if let Some(md) = &self.instructions_content {
            push_str(&mut prefs, "\n### From the instructions file\n\n");
            push_str(&mut prefs, md.as_str());
            if !str_ends_with(md.as_str(), "\n") {
                push_str(&mut prefs, "\n");
            }
        }
        let ghost c = prefs@;
        let mem = self.memory_text();
        if !mem.as_str().is_empty() {
            push_str(&mut prefs, "\n### User Memory\n\n");
            push_str(&mut prefs, mem.as_str());
        }
        proof {
            assert(b =~= a + (if self.preferences.custom@.len() > 0 {
                "\n### Custom Preferences\n\n"@ + entry_lines(self.preferences.custom@)
            } else {
                seq![]
            }));
            assert(prefs@ =~= user_prefs_text(*self));
        }
        prefs
    }
}

impl ContextLayer for UserContext {
    open spec fn name_spec(&self) -> Seq<char> {
        "user"@
    }

    open spec fn priority_spec(&self) -> ContextPriority {
        ContextPriority::User
    }

    open spec fn applies(&self, before: ResolvedContext, after: ResolvedContext) -> bool {
        &&& after.user_preferences matches Some(p) && p@ == user_prefs_text(*self)
        &&& after == (ResolvedContext {
            user_preferences: after.user_preferences,
            ..before
        })
    }

    fn layer_name(&self) -> (r: &str)
        ensures
            r@ == "user"@,
    {
        "user"
    }

    fn priority(&self) -> (r: ContextPriority)
        ensures
            r == ContextPriority::User,
    {
        assert(self.priority_spec() == ContextPriority::User);
        ContextPriority::User
    }

    /// Sets the resolved user preferences to this user's section.
    fn apply_to(&self, resolved: &mut ResolvedContext)
    {
        resolved.user_preferences = Some(self.preferences_text());
    }
}

/// Loads user context from the user's instructions directory.  Reading the
/// file is left to the caller, which hands its content to
/// `UserContext::with_instructions`.
#[derive(Debug)]
pub struct UserContextLoader {
    instructions_dir: PathBuf,
    has_pool: bool,
}

impl UserContextLoader {
    /// A loader for the instructions file in `dir`.
    pub fn new<P: AsRef<Path>>(dir: P) -> (r: Self)
        ensures
            !r.uses_pool(),
    {
        UserContextLoader { instructions_dir: owned_path(dir), has_pool: false }
    }

    /// The directory holding the instructions file.
    pub fn instructions_dir(&self) -> &Path {
        borrowed_path(&self.instructions_dir)
    }

    /// Whether the loader reads a database; a loader made by `new` does not.
    pub closed spec fn uses_pool(&self) -> bool {
        self.has_pool
    }

    /// Whether the loader reads a database.
    pub fn has_pool(&self) -> (r: bool)
        ensures
            r == self.uses_pool(),
    {
        self.has_pool
    }
}

} // verus!
