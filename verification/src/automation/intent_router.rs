//! Intent routing, the first layer of the automation architecture: detect the
//! target system, estimate the data volume and category of a task, and choose
//! the cheapest automation path.
use vstd::prelude::*;

use std::collections::HashMap;

use crate::automation::asset_store::{
    best_match, older_than, older_than_exec, query_matches, ranks_at_least, MemoryAssetStore,
};
use crate::automation::types::{AssetView, hash_hex, ratio_below, text_hash, AssetQuery, AutomationPath, Ratio};
use crate::text::{
    alphanumeric, char_vecs, chars_of, is_alphanumeric, is_whitespace, is_ws, contains, decimal, lowercase, push_decimal, push_str, split_words,
    starts_with, starts_with_chars, str_contains, str_eq, string_from_range, to_lowercase,
    to_owned, views_of, words,
};

verus! {

/// A known target system and its characteristics.
#[derive(Debug, Clone)]
pub struct TargetSystem {
    /// System identifier (e.g., "google-sheets").
    pub id: String,
    /// Human-readable name.
    pub name: String,
    /// Whether this system has a usable API.
    pub has_api: bool,
    /// API information if available.
    pub api_info: Option<ApiInfo>,
    /// Whether this system uses canvas rendering.
    pub uses_canvas: bool,
    /// Whether this system blocks DOM manipulation.
    pub blocks_dom: bool,
    /// URL fragments that identify this system.
    pub url_patterns: Vec<String>,
    /// Keywords that identify this system in task descriptions.
    pub keywords: Vec<String>,
}

/// API information for a target system.
#[derive(Debug, Clone)]
pub struct ApiInfo {
    /// API type (rest, graphql, etc.).
    pub api_type: String,
    /// Base endpoint.
    pub base_url: Option<String>,
    /// Authentication method.
    pub auth_method: Option<String>,
    /// Documentation URL.
    pub docs_url: Option<String>,
    /// Commonly used endpoints.
    pub common_endpoints: HashMap<String, String>,
}

/// The system `t` is described by the given id, name, API (type, base URL,
/// authentication method and documentation URL), canvas and DOM flags, URL
/// patterns and keywords.
pub open spec fn system_is(
    t: TargetSystem,
    id: Seq<char>,
    name: Seq<char>,
    api: Option<(Seq<char>, Seq<char>, Seq<char>, Seq<char>)>,
    uses_canvas: bool,
    blocks_dom: bool,
    url_patterns: Seq<Seq<char>>,
    keywords: Seq<Seq<char>>,
) -> bool {
    &&& t.id@ == id
    &&& t.name@ == name
    &&& t.has_api == api is Some
    &&& match api {
        None => t.api_info is None,
        Some((api_type, base_url, auth, docs)) => t.api_info matches Some(info) && info.api_type@
            == api_type && opt_view(info.base_url) == Some(base_url) && opt_view(info.auth_method)
            == Some(auth) && opt_view(info.docs_url) == Some(docs),
    }
    &&& t.uses_canvas == uses_canvas
    &&& t.blocks_dom == blocks_dom
    &&& views_of(t.url_patterns@) == url_patterns
    &&& views_of(t.keywords@) == keywords
}

/// The default known systems: Google Sheets, Google Docs, Notion, Figma and
/// generic forms, in that order.
pub open spec fn default_systems(s: Seq<TargetSystem>) -> bool {
    &&& s.len() == 5
    &&& system_is(
        s[0],
        "google-sheets"@,
        "Google Sheets"@,
        Some(
            (
                "rest"@,
                "https://sheets.googleapis.com/v4/spreadsheets"@,
                "oauth2"@,
                "https://developers.google.com/sheets/api"@,
            ),
        ),
        true,
        true,
        seq!["sheets.google.com"@, "docs.google.com/spreadsheets"@],
        seq!["google sheets"@, "spreadsheet"@, "表格"@],
    )
    &&& system_is(
        s[1],
        "google-docs"@,
        "Google Docs"@,
        Some(
            (
                "rest"@,
                "https://docs.googleapis.com/v1/documents"@,
                "oauth2"@,
                "https://developers.google.com/docs/api"@,
            ),
        ),
        true,
        true,
        seq!["docs.google.com/document"@],
        seq!["google docs"@, "document"@, "文档"@],
    )
    &&& system_is(
        s[2],
        "notion"@,
        "Notion"@,
        Some(
            ("rest"@, "https://api.notion.com/v1"@, "bearer"@, "https://developers.notion.com"@),
        ),
        false,
        false,
        seq!["notion.so"@, "notion.site"@],
        seq!["notion"@],
    )
    &&& system_is(
        s[3],
        "figma"@,
        "Figma"@,
        Some(
            (
                "rest"@,
                "https://api.figma.com/v1"@,
                "bearer"@,
                "https://www.figma.com/developers/api"@,
            ),
        ),
        true,
        true,
        seq!["figma.com"@],
        seq!["figma"@],
    )
    &&& system_is(
        s[4],
        "generic-form"@,
        "Generic Form"@,
        None,
        false,
        false,
        seq![],
        seq!["form"@, "表单"@, "填写"@],
    )
}

impl TargetSystem {
    /// The URL contains one of the system's URL patterns.
    pub open spec fn url_match(self, url: Seq<char>) -> bool {
        exists|i: int| 0 <= i < self.url_patterns@.len() && contains(url, (#[trigger] self.url_patterns@[i])@)
    }

    /// The lowercased task contains one of the system's keywords.
    pub open spec fn keyword_match(self, task: Seq<char>) -> bool {
        exists|i: int| 0 <= i < self.keywords@.len() && contains(lowercase(task), (#[trigger] self.keywords@[i])@)
    }

    /// Check if a URL matches this system.
    pub fn matches_url(&self, url: &str) -> (r: bool)
        ensures
            r == self.url_match(url@),
    {
        let mut i: usize = 0;
        while i < self.url_patterns.len()
            invariant
                0 <= i <= self.url_patterns@.len(),
                forall|j: int| 0 <= j < i ==> !contains(url@, (#[trigger] self.url_patterns@[j])@),
            decreases self.url_patterns.len() - i,
        {
            if str_contains(url, self.url_patterns[i].as_str()) {
                return true;
            }
            i = i + 1;
        }
        false
    }

    /// Check if the task mentions one of this system's keywords.
    pub fn matches_keywords(&self, task: &str) -> (r: bool)
        ensures
            r == self.keyword_match(task@),
    {
        let task_lower = to_lowercase(task);
        let mut i: usize = 0;
        while i < self.keywords.len()
            invariant
                0 <= i <= self.keywords@.len(),
                task_lower@ == lowercase(task@),
                forall|j: int| 0 <= j < i ==> !contains(lowercase(task@), (#[trigger] self.keywords@[j])@),
            decreases self.keywords.len() - i,
        {
            if str_contains(task_lower.as_str(), self.keywords[i].as_str()) {
                return true;
            }
            i = i + 1;
        }
        false
    }
}

/// Estimated data volume.
#[derive(Debug, Clone, Copy, PartialEq, Eq, Structural)]
pub enum DataVolume {
    /// Very small (1-5 items).
    Tiny,
    /// Small (6-20 items).
    Small,
    /// Medium (21-100 items).
    Medium,
    /// Large (101-1000 items).
    Large,
    /// Very large (1000+ items).
    VeryLarge,
    /// Unknown.
    Unknown,
}

impl DataVolume {
    /// The volume class of an item count.
    pub open spec fn of_count(count: nat) -> DataVolume {
        if count <= 5 {
            DataVolume::Tiny
        } else if count <= 20 {
            DataVolume::Small
        } else if count <= 100 {
            DataVolume::Medium
        } else if count <= 1000 {
            DataVolume::Large
        } else {
            DataVolume::VeryLarge
        }
    }

    /// Tokens per item of a pure-CV run at this volume.
    pub open spec fn per_item_tokens(self) -> nat {
        match self {
            DataVolume::Tiny => 20_000,
            DataVolume::Small => 15_000,
            _ => 10_000,
        }
    }

    /// Create from an item count.
    pub fn from_count(count: usize) -> (r: Self)
        ensures
            r == Self::of_count(count as nat),
    {
        if count <= 5 {
            DataVolume::Tiny
        } else if count <= 20 {
            DataVolume::Small
        } else if count <= 100 {
            DataVolume::Medium
        } else if count <= 1000 {
            DataVolume::Large
        } else {
            DataVolume::VeryLarge
        }
    }

    /// Whether this volume warrants script generation.
    pub fn should_generate_script(&self) -> (r: bool)
        ensures
            r == (*self == DataVolume::Medium || *self == DataVolume::Large || *self
                == DataVolume::VeryLarge),
    {
        match self {
            DataVolume::Medium | DataVolume::Large | DataVolume::VeryLarge => true,
            _ => false,
        }
    }

    /// Estimated tokens for the pure CV approach on `items` items.
    pub fn pure_cv_tokens(&self, items: usize) -> (r: u64)
        requires
            items * self.per_item_tokens() <= u64::MAX,
        ensures
            r == items * self.per_item_tokens(),
    {
        let per_item = 10_000u64;
        match self {
            DataVolume::Tiny => (items as u64) * 20_000,
            DataVolume::Small => (items as u64) * 15_000,
            _ => (items as u64) * per_item,
        }
    }
}

/// Script generation is warranted exactly from 21 items on.
pub proof fn lemma_scripts_from_medium(count: nat)
    ensures
        (DataVolume::of_count(count) == DataVolume::Medium || DataVolume::of_count(count)
            == DataVolume::Large || DataVolume::of_count(count) == DataVolume::VeryLarge) <==> count
            > 20,
{
}

/// Volume classes grow with the item count.
pub proof fn lemma_volume_monotone(a: nat, b: nat)
    requires
        a <= b,
    ensures
        volume_rank(DataVolume::of_count(a)) <= volume_rank(DataVolume::of_count(b)),
{
}

/// Rank of a known volume class, from Tiny (0) to VeryLarge (4).
pub open spec fn volume_rank(v: DataVolume) -> int {
    match v {
        DataVolume::Tiny => 0,
        DataVolume::Small => 1,
        DataVolume::Medium => 2,
        DataVolume::Large => 3,
        DataVolume::VeryLarge => 4,
        DataVolume::Unknown => -1,
    }
}

/// Task category.
#[derive(Debug, Clone, Copy, PartialEq, Eq, Structural)]
pub enum TaskCategory {
    /// Data entry (filling forms, spreadsheets).
    DataEntry,
    /// Data extraction (scraping).
    DataExtraction,
    /// Navigation (clicking through pages).
    Navigation,
    /// Form submission.
    FormSubmission,
    /// File upload/download.
    FileOperation,
    /// Document creation.
    DocumentCreation,
    /// Mixed/complex.
    Complex,
    /// Unknown.
    Unknown,
}

/// An entity found in a task description.
#[derive(Debug, Clone)]
pub struct ExtractedEntity {
    pub entity_type: String,
    pub value: String,
}

/// Result of analysing a task's intent.
#[derive(Debug)]
pub struct IntentAnalysis {
    /// Original task description.
    pub task: String,
    /// Position of the detected target system among the router's known systems.
    pub target_system: Option<usize>,
    /// Estimated data volume.
    pub data_volume: DataVolume,
    /// Task category.
    pub task_category: TaskCategory,
    /// Extracted entities (URLs).
    pub entities: Vec<ExtractedEntity>,
}

/// The words of `t` that start with `http://` or `https://`, in order.
pub open spec fn url_words(t: Seq<char>) -> Seq<Seq<char>> {
    words(t).filter(|w: Seq<char>| starts_with(w, "http://"@) || starts_with(w, "https://"@))
}

/// `t` contains any of the given markers.
pub open spec fn has_any(t: Seq<char>, m: Seq<Seq<char>>) -> bool {
    exists|i: int| 0 <= i < m.len() && contains(t, #[trigger] m[i])
}

/// Volume guessed from the wording of a lowercased task.
pub open spec fn volume_from_words(t: Seq<char>) -> DataVolume {
    if has_any(t, seq!["1000"@, "thousand"@]) {
        DataVolume::Large
    } else if has_any(t, seq!["100"@, "hundred"@]) {
        DataVolume::Medium
    } else if has_any(t, seq!["batch"@, "bulk"@, "批量"@]) {
        DataVolume::Large
    } else if has_any(t, seq!["few"@, "几"@, "some"@]) {
        DataVolume::Small
    } else if has_any(t, seq!["one"@, "single"@, "一个"@]) {
        DataVolume::Tiny
    } else {
        DataVolume::Unknown
    }
}

/// Category guessed from the wording of a lowercased task.
pub open spec fn category_from_words(t: Seq<char>) -> TaskCategory {
    if has_any(t, seq!["fill"@, "enter"@, "input"@, "填写"@, "输入"@]) {
        TaskCategory::DataEntry
    } else if has_any(t, seq!["extract"@, "scrape"@, "get"@, "提取"@, "获取"@]) {
        TaskCategory::DataExtraction
    } else if has_any(t, seq!["create"@, "new"@, "创建"@, "新建"@]) {
        TaskCategory::DocumentCreation
    } else if has_any(t, seq!["submit"@, "提交"@]) {
        TaskCategory::FormSubmission
    } else if has_any(t, seq!["upload"@, "download"@, "上传"@, "下载"@]) {
        TaskCategory::FileOperation
    } else if has_any(t, seq!["navigate"@, "go to"@, "open"@, "打开"@, "访问"@]) {
        TaskCategory::Navigation
    } else {
        TaskCategory::Unknown
    }
}

/// Whether `t` contains any of `m` (each checked with `str::contains`).
fn contains_any(t: &str, m: &[&str]) -> (r: bool)
    ensures
        r == has_any(t@, Seq::new(m@.len(), |i: int| m@[i]@)),
{
    let ghost ms = Seq::new(m@.len(), |i: int| m@[i]@);
    let mut i: usize = 0;
    while i < m.len()
        invariant
            0 <= i <= m@.len(),
            ms == Seq::new(m@.len(), |i: int| m@[i]@),
            forall|j: int| 0 <= j < i ==> !contains(t@, #[trigger] ms[j]),
        decreases m.len() - i,
    {
        if str_contains(t, m[i]) {
            assert(contains(t@, ms[i as int]));
            return true;
        }
        i = i + 1;
    }
    false
}

/// Shape of an automation path, by the characters of its texts.
pub enum PathView {
    DirectApi { api_type: Seq<char>, api_endpoint: Option<Seq<char>> },
    ExploreAndGenerate { target_url: Seq<char>, estimated_tokens: u64 },
    PureComputerVision { max_items: usize, estimated_tokens: u64 },
    ReuseScript { script_id: Seq<char> },
    HybridApproach { explore_phase_tokens: u64, execute_phase_tokens: u64 },
    RequiresHumanAssistance { reason: Seq<char> },
}

/// The characters of an optional string.
pub open spec fn opt_view(o: Option<String>) -> Option<Seq<char>> {
    match o {
        Some(s) => Some(s@),
        None => None,
    }
}

impl AutomationPath {
    /// The path with its texts taken as character sequences.
    pub open spec fn shape(self) -> PathView {
        match self {
            AutomationPath::DirectApi { api_type, api_endpoint } => PathView::DirectApi {
                api_type: api_type@,
                api_endpoint: opt_view(api_endpoint),
            },
            AutomationPath::ExploreAndGenerate { target_url, estimated_tokens } =>
                PathView::ExploreAndGenerate { target_url: target_url@, estimated_tokens },
            AutomationPath::PureComputerVision { max_items, estimated_tokens } =>
                PathView::PureComputerVision { max_items, estimated_tokens },
            AutomationPath::ReuseScript { script_id } => PathView::ReuseScript {
                script_id: script_id@,
            },
            AutomationPath::HybridApproach { explore_phase_tokens, execute_phase_tokens } =>
                PathView::HybridApproach { explore_phase_tokens, execute_phase_tokens },
            AutomationPath::RequiresHumanAssistance { reason } =>
                PathView::RequiresHumanAssistance { reason: reason@ },
        }
    }
}

/// How the token savings of a decision are to be reported.
#[derive(Debug, Clone, Copy, PartialEq, Eq, Structural)]
pub enum TokenSavings {
    /// A cached script is reused: savings are reported as nearly total.
    CachedScript,
    /// Savings of the chosen path against the pure-CV estimate.
    AgainstPureCv { pure_cv_tokens: u64, chosen_tokens: u64 },
}

/// A routing decision with its explanation.  Confidence is given in hundredths.
#[derive(Debug)]
pub struct PathDecision {
    /// The chosen path.
    pub path: AutomationPath,
    /// Confidence in this decision, in hundredths (0-100).
    pub confidence_pct: u8,
    /// Reasoning for this decision.
    pub reasoning: String,
    /// Alternative paths considered.
    pub alternatives: Vec<AutomationPath>,
    /// Basis of the savings estimate.
    pub savings: TokenSavings,
}

/// The full result of routing a task.  The time is in milliseconds since the
/// Unix epoch.
#[derive(Debug)]
pub struct RouteAnalysis {
    /// Task description.
    pub task: String,
    /// Name of the detected target system, or `unknown`.
    pub target_system: String,
    /// The given item count, or 0.
    pub data_volume: usize,
    /// Path decision.
    pub decision: PathDecision,
    /// When the analysis was made.
    pub analyzed_at_millis: i64,
}

/// The characters of a task kept for its signature: its lowercase letters,
/// digits and whitespace.
pub open spec fn signature_chars(task: Seq<char>) -> Seq<char> {
    lowercase(task).filter(|c: char| alphanumeric(c) || is_ws(c))
}

/// Item count assumed for a volume class.
pub open spec fn assumed_items(v: DataVolume) -> usize {
    match v {
        DataVolume::Tiny => 3,
        DataVolume::Small => 15,
        DataVolume::Medium => 50,
        DataVolume::Large => 500,
        DataVolume::VeryLarge => 2000,
        DataVolume::Unknown => 50,
    }
}

/// Position of the first element of `s` that satisfies `p`.
pub open spec fn first_index<A>(s: Seq<A>, p: spec_fn(A) -> bool) -> Option<int>
    decreases s.len(),
{
    if s.len() == 0 {
        None
    } else {
        match first_index(s.drop_last(), p) {
            Some(i) => Some(i),
            None => if p(s.last()) {
                Some(s.len() - 1)
            } else {
                None
            },
        }
    }
}

/// Systems whose keywords occur in the task.
pub open spec fn keyword_pred(task: Seq<char>) -> spec_fn(TargetSystem) -> bool {
    |t: TargetSystem| t.keyword_match(task)
}

/// Systems whose URL patterns occur in the URL.
pub open spec fn url_pred(url: Seq<char>) -> spec_fn(TargetSystem) -> bool {
    |t: TargetSystem| t.url_match(url)
}

/// URLs matched by one of the systems.
pub open spec fn url_hit_pred(ks: Seq<TargetSystem>) -> spec_fn(Seq<char>) -> bool {
    |w: Seq<char>| first_index(ks, url_pred(w)) is Some
}

/// The value of the first entity of type `url`, or the empty text.
pub open spec fn first_url_spec(es: Seq<ExtractedEntity>) -> Seq<char> {
    match first_index(es, url_entity_pred()) {
        Some(k) => es[k].value@,
        None => seq![],
    }
}

/// A position taken as an integer.
pub open spec fn opt_index(o: Option<usize>) -> Option<int> {
    match o {
        Some(i) => Some(i as int),
        None => None,
    }
}

/// Entities of type `url`.
pub open spec fn url_entity_pred() -> spec_fn(ExtractedEntity) -> bool {
    |e: ExtractedEntity| e.entity_type@ == "url"@
}

/// A found position lies inside the sequence, on an element that satisfies `p`,
/// after elements that do not.
pub proof fn lemma_first_index<A>(s: Seq<A>, p: spec_fn(A) -> bool)
    ensures
        first_index(s, p) matches Some(i) ==> 0 <= i < s.len() && p(s[i]) && forall|j: int|
            0 <= j < i ==> !p(#[trigger] s[j]),
        first_index(s, p) is None ==> forall|j: int| 0 <= j < s.len() ==> !p(#[trigger] s[j]),
    decreases s.len(),
{
    if s.len() > 0 {
        lemma_first_index(s.drop_last(), p);
        assert forall|j: int| 0 <= j < s.len() - 1 implies s.drop_last()[j] == s[j] by {}
    }
}

/// Extending a prefix by one element.
proof fn lemma_first_index_step<A>(s: Seq<A>, p: spec_fn(A) -> bool, i: int)
    requires
        0 <= i < s.len(),
    ensures
        first_index(s.take(i + 1), p) == match first_index(s.take(i), p) {
            Some(j) => Some(j),
            None => if p(s[i]) {
                Some(i)
            } else {
                None
            },
        },
{
    assert(s.take(i + 1).drop_last() =~= s.take(i));
}

/// A position found in a prefix is the position found in the whole.
proof fn lemma_first_index_prefix<A>(s: Seq<A>, p: spec_fn(A) -> bool, k: int)
    requires
        0 <= k <= s.len(),
        first_index(s.take(k), p) is Some,
    ensures
        first_index(s, p) == first_index(s.take(k), p),
    decreases s.len() - k,
{
    if k == s.len() {
        assert(s.take(k) =~= s);
    } else {
        lemma_first_index_step(s, p, k);
        lemma_first_index_prefix(s, p, k + 1);
    }
}

/// Nothing found in the whole sequence taken as a prefix.
proof fn lemma_first_index_full<A>(s: Seq<A>, p: spec_fn(A) -> bool)
    ensures
        first_index(s.take(s.len() as int), p) == first_index(s, p),
{
    assert(s.take(s.len() as int) =~= s);
}

/// A found script as plain values.
pub open spec fn reuse_view(r: Option<(String, Ratio)>) -> Option<(Seq<char>, Ratio)> {
    match r {
        Some((id, rate)) => Some((id@, rate)),
        None => None,
    }
}

/// An asset qualifies for reuse under a signature and a minimum rate: its
/// signature contains the given one and its success rate is not below the
/// minimum.
pub open spec fn qualifies(a: AssetView, sig: Seq<char>, min: Ratio) -> bool {
    contains(a.task_signature, sig) && !ratio_below(a.rate(), min)
}

/// The best qualifying asset: the last of those that rank highest.
pub open spec fn reusable_best(s: Seq<AssetView>, sig: Seq<char>, min: Ratio) -> Option<AssetView>
    decreases s.len(),
{
    if s.len() == 0 {
        None
    } else {
        let b = reusable_best(s.drop_last(), sig, min);
        let x = s.last();
        if qualifies(x, sig, min) && match b {
            Some(y) => ranks_at_least(x, y),
            None => true,
        } {
            Some(x)
        } else {
            b
        }
    }
}

/// A query for a signature and a minimum rate finds the best qualifying
/// asset, whatever the time.
proof fn lemma_reusable_best(s: Seq<AssetView>, q: AssetQuery, now: i64, sig: Seq<char>, min: Ratio)
    requires
        q.task_signature matches Some(t) && t@ == sig,
        q.url_pattern is None,
        q.min_success_rate == Some(min),
        q.max_age_secs is None,
    ensures
        best_match(s, q, now) == reusable_best(s, sig, min),
    decreases s.len(),
{
    if s.len() > 0 {
        lemma_reusable_best(s.drop_last(), q, now, sig, min);
        assert(query_matches(q, s.last(), now) == qualifies(s.last(), sig, min));
    }
}

/// The best qualifying asset is one of the store's, qualifies, and is none
/// only when no asset qualifies.
proof fn lemma_reusable_best_is_best(s: Seq<AssetView>, sig: Seq<char>, min: Ratio)
    ensures
        reusable_best(s, sig, min) matches Some(x) ==> s.contains(x) && qualifies(x, sig, min),
    decreases s.len(),
{
    if s.len() > 0 {
        let t = s.drop_last();
        lemma_reusable_best_is_best(t, sig, min);
        if let Some(x) = reusable_best(t, sig, min) {
            let j = choose|j: int| 0 <= j < t.len() && t[j] == x;
            assert(s[j] == x);
        }
        assert(s[s.len() - 1] == s.last());
    }
}

/// The router's choice between the decision-tree branches.
pub enum Branch {
    Api,
    PureCv,
    CanvasExplore,
    Explore,
}

/// Intent router: known systems and the routing thresholds.
pub struct IntentRouter {
    /// Known target systems.
    pub known_systems: Vec<TargetSystem>,
    /// Item count up to which pure CV is preferred over scripts.
    pub cv_threshold: usize,
    /// Minimum success rate of a reusable script.
    pub min_reuse_success_rate: Ratio,
    /// Maximum age of a reusable script, in seconds.
    pub max_script_age_secs: u64,
    /// Whether to prefer an API when one is available.
    pub prefer_api: bool,
}

impl IntentRouter {
    /// Position of the first known system whose keywords match; otherwise of the
    /// first system matched by the first URL (in word order) that matches any.
    pub open spec fn detect_spec(self, task: Seq<char>) -> Option<int> {
        let ks = self.known_systems@;
        match first_index(ks, keyword_pred(task)) {
            Some(i) => Some(i),
            None => {
                let urls = url_words(task);
                match first_index(urls, url_hit_pred(ks)) {
                    Some(u) => first_index(ks, url_pred(urls[u])),
                    None => None,
                }
            },
        }
    }

    /// A router with the default known systems and thresholds (CV up to 10
    /// items, scripts reusable for 7 days at a success rate of at least 0.8,
    /// APIs preferred).
    pub fn new() -> (r: Self)
        ensures
            default_systems(r.known_systems@),
            r.cv_threshold == 10,
            r.min_reuse_success_rate == (Ratio { numerator: 8, denominator: 10 }),
            r.max_script_age_secs == 86400 * 7,
            r.prefer_api,
    {
        IntentRouter {
            known_systems: Self::default_known_systems(),
            cv_threshold: 10,
            min_reuse_success_rate: Ratio { numerator: 8, denominator: 10 },
            max_script_age_secs: 86400 * 7,
            prefer_api: true,
        }
    }

    /// A builder for a router.
    pub fn builder() -> (r: IntentRouterBuilder)
        ensures
            r.systems() is None,
            r.settings() == (10usize, Ratio { numerator: 8, denominator: 10 }, 604800u64, true),
    {
        IntentRouterBuilder::new()
    }

    /// The default known systems: Google Sheets, Google Docs, Notion, Figma and
    /// generic forms.
    pub fn default_known_systems() -> (r: Vec<TargetSystem>)
        ensures
            default_systems(r@),
    {
        let mut sheets_endpoints: HashMap<String, String> = HashMap::new();
        sheets_endpoints.insert(to_owned("read"), to_owned("GET /spreadsheets/{id}/values/{range}"));
        sheets_endpoints.insert(to_owned("write"), to_owned("PUT /spreadsheets/{id}/values/{range}"));
        let mut v: Vec<TargetSystem> = Vec::new();
        v.push(
            TargetSystem {
                id: to_owned("google-sheets"),
                name: to_owned("Google Sheets"),
                has_api: true,
                api_info: Some(
                    ApiInfo {
                        api_type: to_owned("rest"),
                        base_url: Some(to_owned("https://sheets.googleapis.com/v4/spreadsheets")),
                        auth_method: Some(to_owned("oauth2")),
                        docs_url: Some(to_owned("https://developers.google.com/sheets/api")),
                        common_endpoints: sheets_endpoints,
                    },
                ),
                uses_canvas: true,
                blocks_dom: true,
                url_patterns: strings2("sheets.google.com", "docs.google.com/spreadsheets"),
                keywords: strings3("google sheets", "spreadsheet", "表格"),
            },
        );
        v.push(
            TargetSystem {
                id: to_owned("google-docs"),
                name: to_owned("Google Docs"),
                has_api: true,
                api_info: Some(
                    ApiInfo {
                        api_type: to_owned("rest"),
                        base_url: Some(to_owned("https://docs.googleapis.com/v1/documents")),
                        auth_method: Some(to_owned("oauth2")),
                        docs_url: Some(to_owned("https://developers.google.com/docs/api")),
                        common_endpoints: HashMap::new(),
                    },
                ),
                uses_canvas: true,
                blocks_dom: true,
                url_patterns: strings1("docs.google.com/document"),
                keywords: strings3("google docs", "document", "文档"),
            },
        );
        v.push(
            TargetSystem {
                id: to_owned("notion"),
                name: to_owned("Notion"),
                has_api: true,
                api_info: Some(
                    ApiInfo {
                        api_type: to_owned("rest"),
                        base_url: Some(to_owned("https://api.notion.com/v1")),
                        auth_method: Some(to_owned("bearer")),
                        docs_url: Some(to_owned("https://developers.notion.com")),
                        common_endpoints: HashMap::new(),
                    },
                ),
                uses_canvas: false,
                blocks_dom: false,
                url_patterns: strings2("notion.so", "notion.site"),
                keywords: strings1("notion"),
            },
        );
        v.push(
            TargetSystem {
                id: to_owned("figma"),
                name: to_owned("Figma"),
                has_api: true,
                api_info: Some(
                    ApiInfo {
                        api_type: to_owned("rest"),
                        base_url: Some(to_owned("https://api.figma.com/v1")),
                        auth_method: Some(to_owned("bearer")),
                        docs_url: Some(to_owned("https://www.figma.com/developers/api")),
                        common_endpoints: HashMap::new(),
                    },
                ),
                uses_canvas: true,
                blocks_dom: true,
                url_patterns: strings1("figma.com"),
                keywords: strings1("figma"),
            },
        );
        v.push(
            TargetSystem {
                id: to_owned("generic-form"),
                name: to_owned("Generic Form"),
                has_api: false,
                api_info: None,
                uses_canvas: false,
                blocks_dom: false,
                url_patterns: Vec::new(),
                keywords: strings3("form", "表单", "填写"),
            },
        );
        proof {
            assert(views_of(v@[0].url_patterns@) =~= seq![
                "sheets.google.com"@,
                "docs.google.com/spreadsheets"@,
            ]);
            assert(views_of(v@[0].keywords@) =~= seq!["google sheets"@, "spreadsheet"@, "表格"@]);
            assert(views_of(v@[1].url_patterns@) =~= seq!["docs.google.com/document"@]);
            assert(views_of(v@[1].keywords@) =~= seq!["google docs"@, "document"@, "文档"@]);
            assert(views_of(v@[2].url_patterns@) =~= seq!["notion.so"@, "notion.site"@]);
            assert(views_of(v@[2].keywords@) =~= seq!["notion"@]);
            assert(views_of(v@[3].url_patterns@) =~= seq!["figma.com"@]);
            assert(views_of(v@[3].keywords@) =~= seq!["figma"@]);
            assert(views_of(v@[4].url_patterns@) =~= Seq::<Seq<char>>::empty());
            assert(views_of(v@[4].keywords@) =~= seq!["form"@, "表单"@, "填写"@]);
        }
        v
    }

    /// Detect the target system from a task description (position among the
    /// known systems).
    pub fn detect_target_system(&self, task: &str) -> (r: Option<usize>)
        ensures
            opt_index(r) == self.detect_spec(task@),
    {
        let ks = &self.known_systems;
        let ghost kp = keyword_pred(task@);
        let mut i: usize = 0;
        while i < ks.len()
            invariant
                0 <= i <= ks@.len(),
                ks@ == self.known_systems@,
                kp == keyword_pred(task@),
                first_index(ks@.take(i as int), kp) is None,
            decreases ks.len() - i,
        {
            let hit = ks[i].matches_keywords(task);
            proof {
                lemma_first_index_step(ks@, kp, i as int);
            }
            if hit {
                proof {
                    lemma_first_index_prefix(ks@, kp, i + 1);
                }
                return Some(i);
            }
            i = i + 1;
        }
        proof {
            lemma_first_index_full(ks@, kp);
        }
        let urls = Self::extract_urls(task);
        let ghost uw = url_words(task@);
        let ghost hp = url_hit_pred(ks@);
        let mut u: usize = 0;
        while u < urls.len()
            invariant
                0 <= u <= urls@.len(),
                ks@ == self.known_systems@,
                urls@.len() == uw.len(),
                uw == url_words(task@),
                hp == url_hit_pred(ks@),
                forall|k: int| 0 <= k < urls@.len() ==> (#[trigger] urls@[k])@ == uw[k],
                first_index(ks@, keyword_pred(task@)) is None,
                first_index(uw.take(u as int), hp) is None,
            decreases urls.len() - u,
        {
            let ghost up = url_pred(uw[u as int]);
            let mut j: usize = 0;
            while j < ks.len()
                invariant
                    0 <= u < urls@.len(),
                    0 <= j <= ks@.len(),
                    ks@ == self.known_systems@,
                    urls@.len() == uw.len(),
                    forall|k: int| 0 <= k < urls@.len() ==> (#[trigger] urls@[k])@ == uw[k],
                    up == url_pred(uw[u as int]),
                    first_index(ks@.take(j as int), up) is None,
                    uw == url_words(task@),
                    hp == url_hit_pred(ks@),
                    first_index(ks@, keyword_pred(task@)) is None,
                    first_index(uw.take(u as int), hp) is None,
                decreases ks.len() - j,
            {
                let hit = ks[j].matches_url(urls[u].as_str());
                proof {
                    assert(urls@[u as int]@ == uw[u as int]);
                    lemma_first_index_step(ks@, up, j as int);
                }
                if hit {
                    proof {
                        lemma_first_index_prefix(ks@, up, j + 1);
                        lemma_first_index_step(uw, hp, u as int);
                        lemma_first_index_prefix(uw, hp, u + 1);
                    }
                    return Some(j);
                }
                j = j + 1;
            }
            proof {
                lemma_first_index_full(ks@, up);
                lemma_first_index_step(uw, hp, u as int);
            }
            u = u + 1;
        }
        proof {
            lemma_first_index_full(uw, hp);
        }
        None
    }

    /// Estimate the data volume from the wording of a task.
    pub fn estimate_data_volume(&self, task: &str) -> (r: DataVolume)
        ensures
            r == volume_from_words(lowercase(task@)),
    {
        let t = to_lowercase(task);
        let s = t.as_str();
        proof {
            reveal_with_fuel(has_any, 1);
        }
        if contains_any(s, &["1000", "thousand"]) {
            proof { assert(Seq::new(2, |i: int| ["1000", "thousand"]@[i]@) =~= seq!["1000"@, "thousand"@]); }
            return DataVolume::Large;
        }
        proof { assert(Seq::new(2, |i: int| ["1000", "thousand"]@[i]@) =~= seq!["1000"@, "thousand"@]); }
        if contains_any(s, &["100", "hundred"]) {
            proof { assert(Seq::new(2, |i: int| ["100", "hundred"]@[i]@) =~= seq!["100"@, "hundred"@]); }
            return DataVolume::Medium;
        }
        proof { assert(Seq::new(2, |i: int| ["100", "hundred"]@[i]@) =~= seq!["100"@, "hundred"@]); }
        if contains_any(s, &["batch", "bulk", "批量"]) {
            proof { assert(Seq::new(3, |i: int| ["batch", "bulk", "批量"]@[i]@) =~= seq!["batch"@, "bulk"@, "批量"@]); }
            return DataVolume::Large;
        }
        proof { assert(Seq::new(3, |i: int| ["batch", "bulk", "批量"]@[i]@) =~= seq!["batch"@, "bulk"@, "批量"@]); }
        if contains_any(s, &["few", "几", "some"]) {
            proof { assert(Seq::new(3, |i: int| ["few", "几", "some"]@[i]@) =~= seq!["few"@, "几"@, "some"@]); }
            return DataVolume::Small;
        }
        proof { assert(Seq::new(3, |i: int| ["few", "几", "some"]@[i]@) =~= seq!["few"@, "几"@, "some"@]); }
        if contains_any(s, &["one", "single", "一个"]) {
            proof { assert(Seq::new(3, |i: int| ["one", "single", "一个"]@[i]@) =~= seq!["one"@, "single"@, "一个"@]); }
            return DataVolume::Tiny;
        }
        proof { assert(Seq::new(3, |i: int| ["one", "single", "一个"]@[i]@) =~= seq!["one"@, "single"@, "一个"@]); }
        DataVolume::Unknown
    }

    /// Detect the task category from the wording of a task.
    pub fn detect_task_category(&self, task: &str) -> (r: TaskCategory)
        ensures
            r == category_from_words(lowercase(task@)),
    {
        let t = to_lowercase(task);
        let s = t.as_str();
        let a1 = ["fill", "enter", "input", "填写", "输入"];
        let a2 = ["extract", "scrape", "get", "提取", "获取"];
        let a3 = ["create", "new", "创建", "新建"];
        let a4 = ["submit", "提交"];
        let a5 = ["upload", "download", "上传", "下载"];
        let a6 = ["navigate", "go to", "open", "打开", "访问"];
        proof {
            assert(Seq::new(5, |i: int| a1@[i]@) =~= seq!["fill"@, "enter"@, "input"@, "填写"@, "输入"@]);
            assert(Seq::new(5, |i: int| a2@[i]@) =~= seq!["extract"@, "scrape"@, "get"@, "提取"@, "获取"@]);
            assert(Seq::new(4, |i: int| a3@[i]@) =~= seq!["create"@, "new"@, "创建"@, "新建"@]);
            assert(Seq::new(2, |i: int| a4@[i]@) =~= seq!["submit"@, "提交"@]);
            assert(Seq::new(4, |i: int| a5@[i]@) =~= seq!["upload"@, "download"@, "上传"@, "下载"@]);
            assert(Seq::new(5, |i: int| a6@[i]@) =~= seq!["navigate"@, "go to"@, "open"@, "打开"@, "访问"@]);
        }
        if contains_any(s, &a1) {
            return TaskCategory::DataEntry;
        }
        if contains_any(s, &a2) {
            return TaskCategory::DataExtraction;
        }
        if contains_any(s, &a3) {
            return TaskCategory::DocumentCreation;
        }
        if contains_any(s, &a4) {
            return TaskCategory::FormSubmission;
        }
        if contains_any(s, &a5) {
            return TaskCategory::FileOperation;
        }
        if contains_any(s, &a6) {
            return TaskCategory::Navigation;
        }
        TaskCategory::Unknown
    }

    /// The words of a text that start with `http://` or `https://`.
    pub fn extract_urls(text: &str) -> (r: Vec<String>)
        ensures
            r@.len() == url_words(text@).len(),
            forall|k: int| 0 <= k < r@.len() ==> (#[trigger] r@[k])@ == url_words(text@)[k],
    {
        let ws = split_words(text);
        let ghost all = char_vecs(ws@);
        let ghost pred = |w: Seq<char>| starts_with(w, "http://"@) || starts_with(w, "https://"@);
        let h1 = chars_of("http://");
        let h2 = chars_of("https://");
        let mut out: Vec<String> = Vec::new();
        let mut i: usize = 0;
        while i < ws.len()
            invariant
                0 <= i <= ws@.len(),
                all == char_vecs(ws@),
                all == words(text@),
                h1@ == "http://"@,
                h2@ == "https://"@,
                pred == (|w: Seq<char>| starts_with(w, "http://"@) || starts_with(w, "https://"@)),
                Seq::new(out@.len(), |k: int| out@[k]@) == all.take(i as int).filter(pred),
            decreases ws.len() - i,
        {
            let w = &ws[i];
            let keep = starts_with_chars(w.as_slice(), h1.as_slice()) || starts_with_chars(
                w.as_slice(),
                h2.as_slice(),
            );
            let ghost before = Seq::new(out@.len(), |k: int| out@[k]@);
            proof {
                reveal_with_fuel(Seq::<_>::filter, 1);
                assert(all.take(i + 1).drop_last() =~= all.take(i as int));
                assert(all.take(i + 1).last() == w@);
            }
            if keep {
                let s = string_from_range(w.as_slice(), 0, w.len());
                out.push(s);
                assert(w@.subrange(0, w@.len() as int) =~= w@);
                assert(Seq::new(out@.len(), |k: int| out@[k]@) =~= before.push(w@));
            }
            i = i + 1;
        }
        proof {
            assert(all.take(ws@.len() as int) =~= all);
            let f = all.filter(pred);
            assert(Seq::new(out@.len(), |k: int| out@[k]@) == f);
            assert forall|k: int| 0 <= k < out@.len() implies (#[trigger] out@[k])@ == url_words(text@)[k] by {
                assert(Seq::new(out@.len(), |k: int| out@[k]@)[k] == out@[k]@);
            }
        }
        out
    }

    /// Extract entities (the URLs) from a task.
    pub fn extract_entities(text: &str) -> (r: Vec<ExtractedEntity>)
        ensures
            r@.len() == url_words(text@).len(),
            forall|k: int|
                0 <= k < r@.len() ==> (#[trigger] r@[k]).entity_type@ == "url"@ && r@[k].value@
                    == url_words(text@)[k],
    {
        let urls = Self::extract_urls(text);
        let mut out: Vec<ExtractedEntity> = Vec::new();
        let mut i: usize = 0;
        while i < urls.len()
            invariant
                0 <= i <= urls@.len(),
                urls@.len() == url_words(text@).len(),
                forall|k: int| 0 <= k < urls@.len() ==> (#[trigger] urls@[k])@ == url_words(text@)[k],
                out@.len() == i,
                forall|k: int|
                    0 <= k < i ==> (#[trigger] out@[k]).entity_type@ == "url"@ && out@[k].value@
                        == url_words(text@)[k],
            decreases urls.len() - i,
        {
            out.push(ExtractedEntity { entity_type: to_owned("url"), value: urls[i].clone() });
            i = i + 1;
        }
        out
    }

    /// `r` is the analysis of `task`: target system, data volume (the given
    /// count when there is one, else a guess from the wording), category and
    /// URLs.
    pub open spec fn intent_of(self, task: Seq<char>, data_count: Option<usize>, r: IntentAnalysis) -> bool {
        &&& r.task@ == task
        &&& opt_index(r.target_system) == self.detect_spec(task)
        &&& r.data_volume == match data_count {
            Some(c) => DataVolume::of_count(c as nat),
            None => volume_from_words(lowercase(task)),
        }
        &&& r.task_category == category_from_words(lowercase(task))
        &&& r.entities@.len() == url_words(task).len()
        &&& forall|k: int|
            0 <= k < r.entities@.len() ==> (#[trigger] r.entities@[k]).entity_type@ == "url"@
                && r.entities@[k].value@ == url_words(task)[k]
    }

    /// Analyse a task: target system, data volume (the given count when there is
    /// one, else a guess from the wording), category and URLs.
    pub fn analyze_intent(&self, task: &str, data_count: Option<usize>) -> (r: IntentAnalysis)
        ensures
            self.intent_of(task@, data_count, r),
    {
        let target_system = self.detect_target_system(task);
        let data_volume = match data_count {
            Some(c) => DataVolume::from_count(c),
            None => self.estimate_data_volume(task),
        };
        let task_category = self.detect_task_category(task);
        let entities = Self::extract_entities(task);
        IntentAnalysis { task: to_owned(task), target_system, data_volume, task_category, entities }
    }

    /// The signature under which scripts for a task are cached: `task_`
    /// followed by the hash of the task's lowercase letters, digits and
    /// whitespace.
    pub fn generate_task_signature(&self, task: &str) -> (r: String)
        ensures
            r@ == self.signature_spec(task@),
    {
        let lower = to_lowercase(task);
        let cs = chars_of(lower.as_str());
        let ghost all = lower@;
        let ghost keep = |c: char| alphanumeric(c) || is_ws(c);
        let mut kept = String::new();
        let mut i: usize = 0;
        proof {
            assert(all.take(0).filter(keep) =~= Seq::<char>::empty());
            reveal_with_fuel(Seq::<_>::filter, 1);
        }
        while i < cs.len()
            invariant
                0 <= i <= cs@.len(),
                cs@ == all,
                keep == (|c: char| alphanumeric(c) || is_ws(c)),
                kept@ == all.take(i as int).filter(keep),
            decreases cs.len() - i,
        {
            let c = cs[i];
            proof {
                assert(all.take(i + 1).drop_last() =~= all.take(i as int));
                reveal_with_fuel(Seq::<_>::filter, 1);
            }
            if is_alphanumeric(c) || is_whitespace(c) {
                crate::text::push_char(&mut kept, c);
            }
            i = i + 1;
        }
        let hash = text_hash(kept.as_str());
        proof {
            assert(all.take(i as int) =~= all);
        }
        let mut r = to_owned("task_");
        push_str(&mut r, hash.as_str());
        r
    }

    /// A cached script for the task in the store at time `now`
    /// (milliseconds): the best asset whose signature contains the task's and
    /// whose success rate is at least the router's minimum (see
    /// `reusable_best`), if it is no older than the maximum age.  Returns its
    /// id and success rate.
    pub fn find_reusable_script_at(&self, store: &MemoryAssetStore, task: &str, now: i64) -> (r:
        Option<(String, Ratio)>)
        ensures
            reuse_view(r) == self.reusable_at(store@, task@, now),
    {
        let signature = self.generate_task_signature(task);
        let query = AssetQuery::new().with_task_signature(signature.as_str()).with_min_success_rate(
            self.min_reuse_success_rate,
        );
        proof {
            lemma_reusable_best(store@, query, now, signature@, self.min_reuse_success_rate);
        }
        match store.find_at(&query, now) {
            Ok(Some(asset)) => {
                if older_than_exec(now, asset.created_at_millis, self.max_script_age_secs) {
                    None
                } else {
                    let rate = asset.success_rate();
                    Some((asset.id, rate))
                }
            },
            _ => None,
        }
    }

    /// A cached script for the task in the store, at the clock's time (see
    /// `find_reusable_script_at`): nothing when no asset qualifies, else the
    /// best qualifying asset unless it is older than the maximum age then.
    pub fn find_reusable_script(&self, store: &MemoryAssetStore, task: &str) -> (r: Option<(String, Ratio)>)
        ensures
            exists|now: i64| reuse_view(r) == #[trigger] self.reusable_at(store@, task@, now),
            reusable_best(store@, self.signature_spec(task@), self.min_reuse_success_rate) is None
                ==> r is None,
            r matches Some((id, rate)) ==> exists|i: int|
                0 <= i < store@.len() && (#[trigger] store@[i]).id == id@ && store@[i].rate() == rate
                    && !ratio_below(rate, self.min_reuse_success_rate),
    {
        let now = crate::context::subagent::utc_now_millis();
        let r = self.find_reusable_script_at(store, task, now);
        proof {
            lemma_reusable_best_is_best(store@, self.signature_spec(task@), self.min_reuse_success_rate);
        }
        r
    }

    /// The signature under which scripts for a task are cached.
    pub open spec fn signature_spec(self, task: Seq<char>) -> Seq<char> {
        "task_"@ + hash_hex(signature_chars(task))
    }

    /// The cached script for a task at time `now`: the best qualifying asset,
    /// unless it is older than the maximum age; its id and success rate.
    pub open spec fn reusable_at(self, s: Seq<AssetView>, task: Seq<char>, now: i64) -> Option<
        (Seq<char>, Ratio),
    > {
        match reusable_best(s, self.signature_spec(task), self.min_reuse_success_rate) {
            None => None,
            Some(x) => if older_than(now, x.created_at_millis, self.max_script_age_secs) {
                None
            } else {
                Some((x.id, x.rate()))
            },
        }
    }

    /// Routes a task: analyses it, looks for a reusable script in the store
    /// when there is one, and decides the path.
    pub fn analyze(&self, store: Option<&MemoryAssetStore>, task: &str, data_count: Option<usize>) -> (r:
        RouteAnalysis)
        ensures
            r.task@ == task@,
            r.data_volume == match data_count {
                Some(c) => c,
                None => 0,
            },
            r.target_system@ == match self.detect_spec(task@) {
                Some(i) => if 0 <= i < self.known_systems@.len() {
                    self.known_systems@[i].name@
                } else {
                    "unknown"@
                },
                None => "unknown"@,
            },
            exists|a: IntentAnalysis, reused: Option<Seq<char>>|
                {
                    &&& #[trigger] self.intent_of(task@, data_count, a)
                    &&& #[trigger] self.decision_holds(a, reused, r.decision)
                    &&& store is None ==> reused is None
                    &&& reused matches Some(id) ==> (store matches Some(st) && exists|i: int|
                        0 <= i < st@.len() && (#[trigger] st@[i]).id == id && !ratio_below(
                            st@[i].rate(),
                            self.min_reuse_success_rate,
                        ))
                },
    {
        let analysis = self.analyze_intent(task, data_count);
        let reusable: Option<String> = match store {
            Some(st) => match self.find_reusable_script(st, task) {
                Some((id, _rate)) => Some(id),
                None => None,
            },
            None => None,
        };
        let ghost reused = opt_view(reusable);
        let decision = self.decide_path(&analysis, reusable);
        let target_system = match analysis.target_system {
            Some(i) => if i < self.known_systems.len() {
                self.known_systems[i].name.clone()
            } else {
                to_owned("unknown")
            },
            None => to_owned("unknown"),
        };
        let r = RouteAnalysis {
            task: to_owned(task),
            target_system,
            data_volume: match data_count {
                Some(c) => c,
                None => 0,
            },
            decision,
            analyzed_at_millis: crate::context::subagent::utc_now_millis(),
        };
        proof {
            assert(self.intent_of(task@, data_count, analysis));
            assert(self.decision_holds(analysis, reused, r.decision));
        }
        r
    }

    /// The decision-tree branch for an analysis.
    pub open spec fn branch_spec(self, a: IntentAnalysis) -> Branch {
        let ts = match a.target_system {
            Some(i) => if i < self.known_systems@.len() {
                Some(self.known_systems@[i as int])
            } else {
                None
            },
            None => None,
        };
        let has_api = ts matches Some(t) && t.has_api;
        let uses_canvas = ts matches Some(t) && t.uses_canvas;
        if has_api && self.prefer_api && !uses_canvas {
            Branch::Api
        } else if assumed_items(a.data_volume) <= self.cv_threshold {
            Branch::PureCv
        } else if uses_canvas {
            Branch::CanvasExplore
        } else {
            Branch::Explore
        }
    }

    /// What `decide_path` decides for an analysis and an optional reusable
    /// script id.
    pub open spec fn decision_holds(
        self,
        analysis: IntentAnalysis,
        reusable: Option<Seq<char>>,
        r: PathDecision,
    ) -> bool {
        let ts = match analysis.target_system {
            Some(i) => if i < self.known_systems@.len() {
                Some(self.known_systems@[i as int])
            } else {
                None
            },
            None => None,
        };
        let has_api = ts matches Some(t) && t.has_api;
        let items = assumed_items(analysis.data_volume);
        let pure = items * analysis.data_volume.per_item_tokens();
        let api_type = match ts {
            Some(t) => match t.api_info {
                Some(info) => info.api_type@,
                None => "unknown"@,
            },
            None => "unknown"@,
        };
        let endpoint = match ts {
            Some(t) => match t.api_info {
                Some(info) => opt_view(info.base_url),
                None => None,
            },
            None => None,
        };
        let url = first_url_spec(analysis.entities@);
        match reusable {
            Some(id) => {
                &&& r.path.shape() == (PathView::ReuseScript { script_id: id })
                &&& r.confidence_pct == 95
                &&& r.reasoning@ == "Found cached script with good success rate"@
                &&& r.alternatives@.len() == 0
                &&& r.savings == TokenSavings::CachedScript
            },
            None => {
                &&& match self.branch_spec(analysis) {
                    Branch::Api => {
                        &&& r.path.shape() == (PathView::DirectApi {
                            api_type,
                            api_endpoint: endpoint,
                        })
                        &&& r.confidence_pct == 90
                        &&& r.reasoning@ == "Target has API, preferring direct API access"@
                    },
                    Branch::PureCv => {
                        &&& r.path.shape() == (PathView::PureComputerVision {
                            max_items: items,
                            estimated_tokens: pure as u64,
                        })
                        &&& r.confidence_pct == 85
                        &&& r.reasoning@ == "Small data volume ("@ + decimal(items as nat)
                            + " items), using pure CV"@
                    },
                    Branch::CanvasExplore => {
                        &&& r.path.shape() == (PathView::ExploreAndGenerate {
                            target_url: url,
                            estimated_tokens: 6000,
                        })
                        &&& r.confidence_pct == 85
                        &&& r.reasoning@
                            == "Canvas-based app with large data, will explore and generate script"@
                    },
                    Branch::Explore => {
                        &&& r.path.shape() == (PathView::ExploreAndGenerate {
                            target_url: url,
                            estimated_tokens: 5000,
                        })
                        &&& r.confidence_pct == 80
                        &&& r.reasoning@
                            == "Large data volume, will explore and generate script"@
                    },
                }
                &&& r.alternatives@.len() == (if self.branch_spec(analysis) is PureCv {
                    0int
                } else {
                    1int
                }) + (if has_api && !(self.branch_spec(analysis) is Api) {
                    1int
                } else {
                    0int
                })
                &&& !(self.branch_spec(analysis) is PureCv) ==> r.alternatives@[0].shape()
                    == (PathView::PureComputerVision {
                    max_items: items,
                    estimated_tokens: pure as u64,
                })
                &&& has_api && !(self.branch_spec(analysis) is Api) ==> r.alternatives@.last().shape()
                    == (PathView::DirectApi { api_type, api_endpoint: None })
                &&& r.savings == (TokenSavings::AgainstPureCv {
                    pure_cv_tokens: pure as u64,
                    chosen_tokens: r.path.tokens_spec() as u64,
                })
                &&& r.path.tokens_spec() <= pure
            },
        }
    }

    /// Decide the optimal path.  A reusable script wins outright; otherwise an
    /// API for non-canvas systems when preferred, pure CV up to the threshold,
    /// and exploration plus script generation beyond it.
    pub fn decide_path(&self, analysis: &IntentAnalysis, reusable_script: Option<String>) -> (r:
        PathDecision)
        ensures
            self.decision_holds(*analysis, opt_view(reusable_script), r),
    {
        if let Some(script_id) = reusable_script {
            return PathDecision {
                path: AutomationPath::ReuseScript { script_id },
                confidence_pct: 95,
                reasoning: to_owned("Found cached script with good success rate"),
                alternatives: Vec::new(),
                savings: TokenSavings::CachedScript,
            };
        }
        let ts: Option<&TargetSystem> = match analysis.target_system {
            Some(i) => if i < self.known_systems.len() {
                Some(&self.known_systems[i])
            } else {
                None
            },
            None => None,
        };
        let has_api = match ts {
            Some(t) => t.has_api,
            None => false,
        };
        let uses_canvas = match ts {
            Some(t) => t.uses_canvas,
            None => false,
        };
        let api_type = match ts {
            Some(t) => match &t.api_info {
                Some(info) => info.api_type.clone(),
                None => to_owned("unknown"),
            },
            None => to_owned("unknown"),
        };
        let item_count: usize = match analysis.data_volume {
            DataVolume::Tiny => 3,
            DataVolume::Small => 15,
            DataVolume::Medium => 50,
            DataVolume::Large => 500,
            DataVolume::VeryLarge => 2000,
            DataVolume::Unknown => 50,
        };
        let pure_cv_tokens = analysis.data_volume.pure_cv_tokens(item_count);
        let (path, reasoning, confidence_pct) = if has_api && self.prefer_api && !uses_canvas {
            let endpoint = match ts {
                Some(t) => match &t.api_info {
                    Some(info) => info.base_url.clone(),
                    None => None,
                },
                None => None,
            };
            (
                AutomationPath::DirectApi { api_type: api_type.clone(), api_endpoint: endpoint },
                to_owned("Target has API, preferring direct API access"),
                90u8,
            )
        } else if item_count <= self.cv_threshold {
            let mut reason = to_owned("Small data volume (");
            push_decimal(&mut reason, item_count as u64);
            push_str(&mut reason, " items), using pure CV");
            (
                AutomationPath::PureComputerVision {
                    max_items: item_count,
                    estimated_tokens: pure_cv_tokens,
                },
                reason,
                85u8,
            )
        } else if uses_canvas {
            (
                AutomationPath::ExploreAndGenerate {
                    target_url: Self::first_url(&analysis.entities),
                    estimated_tokens: 6000,
                },
                to_owned("Canvas-based app with large data, will explore and generate script"),
                85u8,
            )
        } else {
            (
                AutomationPath::ExploreAndGenerate {
                    target_url: Self::first_url(&analysis.entities),
                    estimated_tokens: 5000,
                },
                to_owned("Large data volume, will explore and generate script"),
                80u8,
            )
        };
        let mut alternatives: Vec<AutomationPath> = Vec::new();
        let is_cv = match &path {
            AutomationPath::PureComputerVision { .. } => true,
            _ => false,
        };
        let is_api = match &path {
            AutomationPath::DirectApi { .. } => true,
            _ => false,
        };
        if !is_cv {
            alternatives.push(
                AutomationPath::PureComputerVision {
                    max_items: item_count,
                    estimated_tokens: pure_cv_tokens,
                },
            );
        }
        if has_api && !is_api {
            alternatives.push(AutomationPath::DirectApi { api_type, api_endpoint: None });
        }
        let chosen_tokens = path.estimated_tokens();
        PathDecision {
            path,
            confidence_pct,
            reasoning,
            alternatives,
            savings: TokenSavings::AgainstPureCv { pure_cv_tokens, chosen_tokens },
        }
    }

    /// The value of the first entity of type `url`, or the empty string.
    fn first_url(entities: &Vec<ExtractedEntity>) -> (r: String)
        ensures
            r@ == first_url_spec(entities@),
    {
        let ghost p = url_entity_pred();
        let mut i: usize = 0;
        while i < entities.len()
            invariant
                0 <= i <= entities@.len(),
                p == url_entity_pred(),
                first_index(entities@.take(i as int), p) is None,
            decreases entities.len() - i,
        {
            let hit = str_eq(entities[i].entity_type.as_str(), "url");
            proof {
                lemma_first_index_step(entities@, p, i as int);
            }
            if hit {
                proof {
                    lemma_first_index_prefix(entities@, p, i + 1);
                }
                return entities[i].value.clone();
            }
            i = i + 1;
        }
        proof {
            lemma_first_index_full(entities@, p);
        }
        String::new()
    }
}

/// Builder for an intent router.  The asset store is not part of the
/// router here: it is handed to `IntentRouter::analyze`.
pub struct IntentRouterBuilder {
    known_systems: Option<Vec<TargetSystem>>,
    cv_threshold: usize,
    min_reuse_success_rate: Ratio,
    max_script_age_secs: u64,
    prefer_api: bool,
}

impl IntentRouterBuilder {
    /// The systems set so far, if any.
    pub closed spec fn systems(self) -> Option<Seq<TargetSystem>> {
        match self.known_systems {
            Some(v) => Some(v@),
            None => None,
        }
    }

    /// The thresholds set so far: CV item count, least reuse rate, maximum
    /// script age and API preference.
    pub closed spec fn settings(self) -> (usize, Ratio, u64, bool) {
        (self.cv_threshold, self.min_reuse_success_rate, self.max_script_age_secs, self.prefer_api)
    }

    /// A builder with no systems set and the default thresholds (CV up to 10
    /// items, reuse at a rate of at least 0.8 for 7 days, APIs preferred).
    pub fn new() -> (r: Self)
        ensures
            r.systems() is None,
            r.settings() == (10usize, Ratio { numerator: 8, denominator: 10 }, 604800u64, true),
    {
        IntentRouterBuilder {
            known_systems: None,
            cv_threshold: 10,
            min_reuse_success_rate: Ratio { numerator: 8, denominator: 10 },
            max_script_age_secs: 86400 * 7,
            prefer_api: true,
        }
    }

    /// Set the known systems.
    pub fn known_systems(self, systems: Vec<TargetSystem>) -> (r: Self)
        ensures
            r.systems() == Some(systems@),
            r.settings() == self.settings(),
    {
        IntentRouterBuilder { known_systems: Some(systems), ..self }
    }

    /// Add a known system, after the default ones when none were set.
    pub fn add_system(self, system: TargetSystem) -> (r: Self)
        ensures
            match self.systems() {
                Some(v) => r.systems() == Some(v.push(system)),
                None => r.systems() matches Some(v) && v.len() == 6 && default_systems(v.drop_last())
                    && v.last() == system,
            },
            r.settings() == self.settings(),
    {
        let mut s = self;
        let mut v = match s.known_systems {
            Some(v) => v,
            None => IntentRouter::default_known_systems(),
        };
        let ghost before = v@;
        v.push(system);
        proof {
            assert(v@.drop_last() =~= before);
        }
        s.known_systems = Some(v);
        s
    }

    /// Set the item count up to which pure CV is used.
    pub fn cv_threshold(self, threshold: usize) -> (r: Self)
        ensures
            r.systems() == self.systems(),
            r.settings() == (threshold, self.settings().1, self.settings().2, self.settings().3),
    {
        IntentRouterBuilder { cv_threshold: threshold, ..self }
    }

    /// Set the least success rate of a reusable script.
    pub fn min_reuse_success_rate(self, rate: Ratio) -> (r: Self)
        ensures
            r.systems() == self.systems(),
            r.settings() == (self.settings().0, rate, self.settings().2, self.settings().3),
    {
        IntentRouterBuilder { min_reuse_success_rate: rate, ..self }
    }

    /// Set the maximum age of a reusable script, in seconds.
    pub fn max_script_age(self, secs: u64) -> (r: Self)
        ensures
            r.systems() == self.systems(),
            r.settings() == (self.settings().0, self.settings().1, secs, self.settings().3),
    {
        IntentRouterBuilder { max_script_age_secs: secs, ..self }
    }

    /// Set whether an API is preferred when one is available.
    pub fn prefer_api(self, prefer: bool) -> (r: Self)
        ensures
            r.systems() == self.systems(),
            r.settings() == (self.settings().0, self.settings().1, self.settings().2, prefer),
    {
        IntentRouterBuilder { prefer_api: prefer, ..self }
    }

    /// The router: the systems set, or the default ones, and the thresholds.
    pub fn build(self) -> (r: IntentRouter)
        ensures
            match self.systems() {
                Some(v) => r.known_systems@ == v,
                None => default_systems(r.known_systems@),
            },
            (r.cv_threshold, r.min_reuse_success_rate, r.max_script_age_secs, r.prefer_api)
                == self.settings(),
    {
        let known_systems = match self.known_systems {
            Some(v) => v,
            None => IntentRouter::default_known_systems(),
        };
        IntentRouter {
            known_systems,
            cv_threshold: self.cv_threshold,
            min_reuse_success_rate: self.min_reuse_success_rate,
            max_script_age_secs: self.max_script_age_secs,
            prefer_api: self.prefer_api,
        }
    }
}

impl Default for IntentRouterBuilder {
    fn default() -> (r: Self)
        ensures
            r.systems() is None,
            r.settings() == (10usize, Ratio { numerator: 8, denominator: 10 }, 604800u64, true),
    {
        IntentRouterBuilder::new()
    }
}

impl Default for IntentRouter {
    fn default() -> (r: Self)
        ensures
            r.known_systems@.len() == 5,
            r.cv_threshold == 10,
            r.prefer_api,
    {
        Self::new()
    }
}

/// A vector of one owned string.
fn strings1(a: &str) -> (r: Vec<String>)
    ensures
        r@.len() == 1,
        r@[0]@ == a@,
{
    let mut v: Vec<String> = Vec::new();
    v.push(to_owned(a));
    v
}

/// A vector of two owned strings.
fn strings2(a: &str, b: &str) -> (r: Vec<String>)
    ensures
        r@.len() == 2,
        r@[0]@ == a@,
        r@[1]@ == b@,
{
    let mut v: Vec<String> = Vec::new();
    v.push(to_owned(a));
    v.push(to_owned(b));
    v
}

/// A vector of three owned strings.
fn strings3(a: &str, b: &str, c: &str) -> (r: Vec<String>)
    ensures
        r@.len() == 3,
        r@[0]@ == a@,
        r@[1]@ == b@,
        r@[2]@ == c@,
{
    let mut v: Vec<String> = Vec::new();
    v.push(to_owned(a));
    v.push(to_owned(b));
    v.push(to_owned(c));
    v
}

/// The detected target system of an analysis, when it is a known one.
pub open spec fn known_target(router: IntentRouter, a: IntentAnalysis) -> Option<TargetSystem> {
    match a.target_system {
        Some(i) => if i < router.known_systems@.len() {
            Some(router.known_systems@[i as int])
        } else {
            None
        },
        None => None,
    }
}

/// The router answers with a direct API call exactly when API access is
/// preferred, no reusable script was offered, and the task's target system
/// has an API and is not canvas-based.  So a router that does not prefer
/// APIs never answers with one.
pub proof fn lemma_api_only_when_preferred(
    router: IntentRouter,
    analysis: IntentAnalysis,
    reusable: Option<Seq<char>>,
    r: PathDecision,
)
    requires
        router.decision_holds(analysis, reusable, r),
    ensures
        (r.path is DirectApi) <==> {
            &&& router.prefer_api
            &&& reusable is None
            &&& known_target(router, analysis) matches Some(t) && t.has_api && !t.uses_canvas
        },
        !router.prefer_api ==> !(r.path is DirectApi),
{
    match reusable {
        Some(id) => {
            assert(r.path.shape() == (PathView::ReuseScript { script_id: id }));
        },
        None => {
            match router.branch_spec(analysis) {
                Branch::Api => {},
                Branch::PureCv => {},
                Branch::CanvasExplore => {},
                Branch::Explore => {},
            }
        },
    }
}

} // verus!
