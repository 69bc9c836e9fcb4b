//! Core types of the five-layer automation architecture: page elements,
//! script kinds and the automation paths the router chooses between.
use vstd::prelude::*;

use crate::text::{opt_view, to_owned};

use std::collections::HashMap;

verus! {

/// The model the explorer and the code generator use unless configured
/// otherwise.
pub const DEFAULT_MODEL: &'static str = "sonnet-4-6";

/// What `DefaultHasher::new()` gives, in lowercase hexadecimal, for two texts
/// hashed one after the other.  Its hashing algorithm is fixed for a given
/// standard library but not described by it, so it is named here.
pub uninterp spec fn hash_pair_hex(first: Seq<char>, second: Seq<char>) -> Seq<char>;

/// What `DefaultHasher::new()` gives, in lowercase hexadecimal, for one text.
pub uninterp spec fn hash_hex(text: Seq<char>) -> Seq<char>;

/// `DefaultHasher::new()` fed `first` then `second` (`Hash for str`), its
/// `finish()` formatted with `{:x}`: the named `hash_pair_hex`, never empty.
#[verifier::external_body]
pub(crate) fn hash_pair(first: &str, second: &str) -> (r: String)
    ensures
        r@ == hash_pair_hex(first@, second@),
        r@.len() > 0,
{
    let mut hasher = std::collections::hash_map::DefaultHasher::new();
    std::hash::Hash::hash(first, &mut hasher);
    std::hash::Hash::hash(second, &mut hasher);
    format!("{:x}", std::hash::Hasher::finish(&hasher))
}

/// `DefaultHasher::new()` fed `text` (`Hash for str`), its `finish()`
/// formatted with `{:x}`: the named `hash_hex`, never empty.
#[verifier::external_body]
pub(crate) fn text_hash(text: &str) -> (r: String)
    ensures
        r@ == hash_hex(text@),
        r@.len() > 0,
{
    let mut hasher = std::collections::hash_map::DefaultHasher::new();
    std::hash::Hash::hash(text, &mut hasher);
    format!("{:x}", std::hash::Hasher::finish(&hasher))
}

/// The structured understanding of a web page.  The creation time is held
/// as milliseconds since the Unix epoch.
#[derive(Debug, Clone)]
pub struct PageSchema {
    /// URL of the analyzed page.
    pub url: String,
    /// Page title.
    pub title: String,
    /// Identified interactive elements.
    pub elements: Vec<ElementSchema>,
    /// Possible actions on the page.
    pub actions: Vec<ActionSchema>,
    /// Page-level metadata.
    pub metadata: PageMetadata,
    /// Hash for cache invalidation.
    pub schema_hash: String,
    /// When the schema was made, in milliseconds since the Unix epoch.
    pub created_at_millis: i64,
}

/// Page-level metadata.  Properties are kept by key.
#[derive(Debug, Clone)]
pub struct PageMetadata {
    /// Detected application type (e.g., "google-sheets", "notion").
    pub app_type: Option<String>,
    /// Whether the page uses canvas rendering.
    pub uses_canvas: bool,
    /// Whether the page has iframes.
    pub has_iframes: bool,
    /// Viewport dimensions when captured.
    pub viewport: Option<Viewport>,
    /// Additional properties, by key.
    pub properties: Vec<(String, serde_json::Value)>,
}

impl Default for PageMetadata {
    fn default() -> (r: Self)
        ensures
            r.app_type is None,
            !r.uses_canvas,
            !r.has_iframes,
            r.viewport is None,
            r.properties@.len() == 0,
    {
        PageMetadata {
            app_type: None,
            uses_canvas: false,
            has_iframes: false,
            viewport: None,
            properties: Vec::new(),
        }
    }
}

impl PageSchema {
    /// An empty schema of a page, with its hash.
    pub fn new(url: &str, title: &str) -> (r: Self)
        ensures
            r.url@ == url@,
            r.title@ == title@,
            r.elements@.len() == 0,
            r.actions@.len() == 0,
            r.metadata.app_type is None,
            r.metadata.properties@.len() == 0,
            r.schema_hash@ == hash_pair_hex(r.url@, r.title@),
    {
        let url: String = to_owned(url);
        let title: String = to_owned(title);
        let schema_hash = hash_pair(url.as_str(), title.as_str());
        PageSchema {
            url,
            title,
            elements: Vec::new(),
            actions: Vec::new(),
            metadata: PageMetadata::default(),
            schema_hash,
            created_at_millis: crate::context::subagent::utc_now_millis(),
        }
    }

    /// Add an element.
    pub fn with_element(self, element: ElementSchema) -> (r: Self)
        ensures
            r.elements@ == self.elements@.push(element),
            r == (PageSchema { elements: r.elements, ..self }),
    {
        let mut s = self;
        s.elements.push(element);
        s
    }

    /// Add an action.
    pub fn with_action(self, action: ActionSchema) -> (r: Self)
        ensures
            r.actions@ == self.actions@.push(action),
            r == (PageSchema { actions: r.actions, ..self }),
    {
        let mut s = self;
        s.actions.push(action);
        s
    }

    /// The first element with the given id.
    pub fn find_element(&self, id: &str) -> (r: Option<&ElementSchema>)
        ensures
            match r {
                Some(e) => exists|i: int|
                    0 <= i < self.elements@.len() && self.elements@[i] == *e && e.id@ == id@
                        && forall|j: int| 0 <= j < i ==> (#[trigger] self.elements@[j]).id@ != id@,
                None => forall|j: int|
                    0 <= j < self.elements@.len() ==> (#[trigger] self.elements@[j]).id@ != id@,
            },
    {
        let mut i: usize = 0;
        while i < self.elements.len()
            invariant
                0 <= i <= self.elements@.len(),
                forall|j: int| 0 <= j < i ==> (#[trigger] self.elements@[j]).id@ != id@,
            decreases self.elements.len() - i,
        {
            if crate::text::str_eq(self.elements[i].id.as_str(), id) {
                return Some(&self.elements[i]);
            }
            i = i + 1;
        }
        None
    }

    /// The elements of the given type, in order.
    pub fn find_elements_by_type(&self, element_type: ElementType) -> (r: Vec<&ElementSchema>)
        ensures
            r@.len() == self.elements@.filter(|e: ElementSchema| e.element_type == element_type).len(),
            forall|i: int|
                0 <= i < r@.len() ==> *r@[i] == self.elements@.filter(
                    |e: ElementSchema| e.element_type == element_type,
                )[i],
    {
        let ghost pred = |e: ElementSchema| e.element_type == element_type;
        let mut out: Vec<&ElementSchema> = Vec::new();
        let mut i: usize = 0;
        proof {
            assert(self.elements@.take(0).filter(pred) =~= Seq::<ElementSchema>::empty());
        }
        while i < self.elements.len()
            invariant
                0 <= i <= self.elements@.len(),
                pred == (|e: ElementSchema| e.element_type == element_type),
                out@.len() == self.elements@.take(i as int).filter(pred).len(),
                forall|k: int|
                    0 <= k < out@.len() ==> *out@[k] == self.elements@.take(i as int).filter(pred)[k],
            decreases self.elements.len() - i,
        {
            let ghost before = self.elements@.take(i as int);
            let ghost after = self.elements@.take(i + 1);
            proof {
                assert(after.drop_last() =~= before);
                assert(after.last() == self.elements@[i as int]);
                reveal_with_fuel(Seq::<_>::filter, 1);
            }
            if self.elements[i].element_type == element_type {
                out.push(&self.elements[i]);
            }
            i = i + 1;
        }
        proof {
            assert(self.elements@.take(self.elements@.len() as int) =~= self.elements@);
        }
        out
    }
}

/// Script metadata.  Properties are kept by key.
#[derive(Debug, Clone)]
pub struct ScriptMetadata {
    /// Estimated execution time in milliseconds.
    pub estimated_duration_ms: Option<u64>,
    /// Whether the script handles pagination.
    pub handles_pagination: bool,
    /// Whether the script has retry logic.
    pub has_retry_logic: bool,
    /// Maximum retries.
    pub max_retries: u32,
    /// Dependencies (npm packages, etc.).
    pub dependencies: Vec<String>,
    /// Environment variables required.
    pub env_vars: Vec<String>,
    /// Additional properties, by key.
    pub properties: Vec<(String, serde_json::Value)>,
}

impl Default for ScriptMetadata {
    fn default() -> (r: Self)
        ensures
            r.estimated_duration_ms is None,
            !r.handles_pagination,
            !r.has_retry_logic,
            r.max_retries == 0,
            r.dependencies@.len() == 0,
            r.env_vars@.len() == 0,
            r.properties@.len() == 0,
    {
        ScriptMetadata {
            estimated_duration_ms: None,
            handles_pagination: false,
            has_retry_logic: false,
            max_retries: 0,
            dependencies: Vec::new(),
            env_vars: Vec::new(),
            properties: Vec::new(),
        }
    }
}

/// A generated automation script.  The creation time is held as
/// milliseconds since the Unix epoch.
#[derive(Debug, Clone)]
pub struct GeneratedScript {
    /// Unique script identifier.
    pub id: String,
    /// Script type.
    pub script_type: ScriptType,
    /// The script code.
    pub code: String,
    /// Language of the script.
    pub language: String,
    /// Hash of the schema the script was generated from.
    pub schema_hash: String,
    /// Task signature the script handles.
    pub task_signature: String,
    /// Script metadata.
    pub metadata: ScriptMetadata,
    /// When the script was generated, in milliseconds since the Unix epoch.
    pub created_at_millis: i64,
}

impl GeneratedScript {
    /// A script with a fresh random id and default metadata.
    pub fn new(
        script_type: ScriptType,
        code: &str,
        language: &str,
        schema_hash: &str,
        task_signature: &str,
    ) -> (r: Self)
        ensures
            r.script_type == script_type,
            r.code@ == code@,
            r.language@ == language@,
            r.schema_hash@ == schema_hash@,
            r.task_signature@ == task_signature@,
            r.metadata.estimated_duration_ms is None,
            r.metadata.dependencies@.len() == 0,
            r.metadata.properties@.len() == 0,
    {
        GeneratedScript {
            id: crate::context::flags::random_uuid_text(),
            script_type,
            code: to_owned(code),
            language: to_owned(language),
            schema_hash: to_owned(schema_hash),
            task_signature: to_owned(task_signature),
            metadata: ScriptMetadata::default(),
            created_at_millis: crate::context::subagent::utc_now_millis(),
        }
    }
}

/// A ratio of two counts, `numerator / denominator`.  Ratios are compared
/// by cross-multiplication, so a zero denominator reads as an infinite
/// ratio, and `0 / 0` as one that no ratio is below or above.
#[derive(Debug, Clone, Copy, PartialEq, Eq, Structural)]
pub struct Ratio {
    /// The numerator.
    pub numerator: u64,
    /// The denominator.
    pub denominator: u64,
}

/// `a` is below `b`.
pub open spec fn ratio_below(a: Ratio, b: Ratio) -> bool {
    a.numerator * b.denominator < b.numerator * a.denominator
}

impl Ratio {
    /// The ratio `numerator / denominator`.
    pub fn new(numerator: u64, denominator: u64) -> (r: Self)
        ensures
            r.numerator == numerator,
            r.denominator == denominator,
    {
        Ratio { numerator, denominator }
    }

    /// Whether this ratio is below `other`.
    pub fn is_below(&self, other: &Ratio) -> (r: bool)
        ensures
            r == ratio_below(*self, *other),
    {
        let a = self.numerator as u128;
        let b = other.denominator as u128;
        let c = other.numerator as u128;
        let d = self.denominator as u128;
        proof {
            vstd::arithmetic::mul::lemma_mul_upper_bound(a as int, u64::MAX as int, b as int, u64::MAX as int);
            vstd::arithmetic::mul::lemma_mul_upper_bound(c as int, u64::MAX as int, d as int, u64::MAX as int);
        }
        a * b < c * d
    }
}

/// A stored script for reuse.  Times are milliseconds since the Unix epoch.
/// The success rate is not stored: it is the share of successful executions,
/// or 1 before the first execution.
#[derive(Debug, Clone)]
pub struct ScriptAsset {
    /// Unique asset identifier.
    pub id: String,
    /// Task signature the asset handles.
    pub task_signature: String,
    /// Hash of the schema the script was generated from.
    pub schema_hash: String,
    /// The script code.
    pub code: String,
    /// Script type.
    pub script_type: ScriptType,
    /// Script language.
    pub language: String,
    /// When the asset was created.
    pub created_at_millis: i64,
    /// When the asset was last used.
    pub last_used_at_millis: i64,
    /// Number of times the asset has been used.
    pub use_count: u64,
    /// Total executions.
    pub total_executions: u64,
    /// Successful executions.
    pub successful_executions: u64,
    /// Target URL pattern.
    pub url_pattern: Option<String>,
    /// Additional metadata, by key.
    pub metadata: Vec<(String, serde_json::Value)>,
}

/// What a script asset holds, as plain values.
pub struct AssetView {
    pub id: Seq<char>,
    pub task_signature: Seq<char>,
    pub schema_hash: Seq<char>,
    pub code: Seq<char>,
    pub script_type: ScriptType,
    pub language: Seq<char>,
    pub created_at_millis: i64,
    pub last_used_at_millis: i64,
    pub use_count: u64,
    pub total_executions: u64,
    pub successful_executions: u64,
    pub url_pattern: Option<Seq<char>>,
    pub metadata: Seq<(String, serde_json::Value)>,
}

impl AssetView {
    /// The success rate: successful over total executions, 1 before any.
    pub open spec fn rate(self) -> Ratio {
        if self.total_executions == 0 {
            Ratio { numerator: 1, denominator: 1 }
        } else {
            Ratio { numerator: self.successful_executions, denominator: self.total_executions }
        }
    }
}

impl View for ScriptAsset {
    type V = AssetView;

    open spec fn view(&self) -> AssetView {
        AssetView {
            id: self.id@,
            task_signature: self.task_signature@,
            schema_hash: self.schema_hash@,
            code: self.code@,
            script_type: self.script_type,
            language: self.language@,
            created_at_millis: self.created_at_millis,
            last_used_at_millis: self.last_used_at_millis,
            use_count: self.use_count,
            total_executions: self.total_executions,
            successful_executions: self.successful_executions,
            url_pattern: match self.url_pattern {
                Some(p) => Some(p@),
                None => None,
            },
            metadata: self.metadata@,
        }
    }
}

impl ScriptAsset {
    /// The success rate: successful over total executions, 1 before any.
    pub fn success_rate(&self) -> (r: Ratio)
        ensures
            r == self@.rate(),
    {
        if self.total_executions == 0 {
            Ratio { numerator: 1, denominator: 1 }
        } else {
            Ratio { numerator: self.successful_executions, denominator: self.total_executions }
        }
    }

    /// A fresh asset for a generated script: a new random id, the script's
    /// signature, hash, code, type and language, created and last used now,
    /// never used, with no URL pattern and no metadata.
    pub fn from_script(script: &GeneratedScript) -> (r: Self)
        ensures
            r@.task_signature == script.task_signature@,
            r@.schema_hash == script.schema_hash@,
            r@.code == script.code@,
            r@.script_type == script.script_type,
            r@.language == script.language@,
            r@.last_used_at_millis == r@.created_at_millis,
            r@.use_count == 0,
            r@.total_executions == 0,
            r@.successful_executions == 0,
            r@.url_pattern is None,
            r@.metadata.len() == 0,
    {
        let now = crate::context::subagent::utc_now_millis();
        ScriptAsset {
            id: crate::context::flags::random_uuid_text(),
            task_signature: script.task_signature.clone(),
            schema_hash: script.schema_hash.clone(),
            code: script.code.clone(),
            script_type: script.script_type,
            language: script.language.clone(),
            created_at_millis: now,
            last_used_at_millis: now,
            use_count: 0,
            total_executions: 0,
            successful_executions: 0,
            url_pattern: None,
            metadata: Vec::new(),
        }
    }

    /// Records one execution: one more use and execution, one more success
    /// when it succeeded, and the last use set to now.
    pub fn record_usage(&mut self, success: bool)
        requires
            usage_fits(old(self)@, success),
        ensures
            usage_recorded(old(self)@, final(self)@, success),
    {
        self.use_count = self.use_count + 1;
        self.total_executions = self.total_executions + 1;
        if success {
            self.successful_executions = self.successful_executions + 1;
        }
        self.last_used_at_millis = crate::context::subagent::utc_now_millis();
    }
}

/// The counters of `a` can take one more execution.
pub open spec fn usage_fits(a: AssetView, success: bool) -> bool {
    &&& a.use_count < u64::MAX
    &&& a.total_executions < u64::MAX
    &&& success ==> a.successful_executions < u64::MAX
}

/// `after` is `before` with one more use and execution, one more success if
/// `success`, and any last-use time; nothing else changed.
pub open spec fn usage_recorded(before: AssetView, after: AssetView, success: bool) -> bool {
    &&& after == AssetView {
        use_count: after.use_count,
        total_executions: after.total_executions,
        successful_executions: after.successful_executions,
        last_used_at_millis: after.last_used_at_millis,
        ..before
    }
    &&& after.use_count == before.use_count + 1
    &&& after.total_executions == before.total_executions + 1
    &&& after.successful_executions == before.successful_executions + if success {
        1int
    } else {
        0int
    }
}

/// A copy of an asset.
pub(crate) fn copy_asset(a: &ScriptAsset) -> (r: ScriptAsset)
    ensures
        r@ == a@,
{
    ScriptAsset {
        id: a.id.clone(),
        task_signature: a.task_signature.clone(),
        schema_hash: a.schema_hash.clone(),
        code: a.code.clone(),
        script_type: a.script_type,
        language: a.language.clone(),
        created_at_millis: a.created_at_millis,
        last_used_at_millis: a.last_used_at_millis,
        use_count: a.use_count,
        total_executions: a.total_executions,
        successful_executions: a.successful_executions,
        url_pattern: match &a.url_pattern {
            Some(p) => Some(p.clone()),
            None => None,
        },
        metadata: crate::context::session::copy_entries(&a.metadata),
    }
}

/// Query parameters for finding assets.
#[derive(Debug, Clone)]
pub struct AssetQuery {
    /// Text the task signature must contain.
    pub task_signature: Option<String>,
    /// Text the asset's URL pattern must contain.
    pub url_pattern: Option<String>,
    /// Success rate the asset must not be below.
    pub min_success_rate: Option<Ratio>,
    /// Maximum age in seconds.
    pub max_age_secs: Option<u64>,
    /// Limit on the results.
    pub limit: Option<usize>,
}

impl Default for AssetQuery {
    fn default() -> (r: Self)
        ensures
            r.task_signature is None,
            r.url_pattern is None,
            r.min_success_rate is None,
            r.max_age_secs is None,
            r.limit is None,
    {
        AssetQuery {
            task_signature: None,
            url_pattern: None,
            min_success_rate: None,
            max_age_secs: None,
            limit: None,
        }
    }
}

impl AssetQuery {
    /// A query that matches every asset.
    pub fn new() -> (r: Self)
        ensures
            r.task_signature is None,
            r.url_pattern is None,
            r.min_success_rate is None,
            r.max_age_secs is None,
            r.limit is None,
    {
        AssetQuery::default()
    }

    /// The query, also asking for a task signature containing `sig`.
    pub fn with_task_signature(self, sig: &str) -> (r: Self)
        ensures
            r == (AssetQuery { task_signature: Some(r.task_signature->0), ..self }),
            r.task_signature->0@ == sig@,
    {
        AssetQuery { task_signature: Some(sig.to_string()), ..self }
    }

    /// The query, also asking for a URL pattern containing `pattern`.
    pub fn with_url_pattern(self, pattern: &str) -> (r: Self)
        ensures
            r == (AssetQuery { url_pattern: Some(r.url_pattern->0), ..self }),
            r.url_pattern->0@ == pattern@,
    {
        AssetQuery { url_pattern: Some(pattern.to_string()), ..self }
    }

    /// The query, also asking for a success rate of at least `rate`.
    pub fn with_min_success_rate(self, rate: Ratio) -> (r: Self)
        ensures
            r == (AssetQuery { min_success_rate: Some(rate), ..self }),
    {
        AssetQuery { min_success_rate: Some(rate), ..self }
    }
}

/// Asset store statistics.  The average success rate is left to the reader
/// of the rates (`ScriptAsset::success_rate`).
#[derive(Debug, Clone)]
pub struct AssetStats {
    /// Number of stored assets.
    pub total_assets: u64,
    /// Executions over all assets.
    pub total_executions: u64,
    /// Successful executions over all assets.
    pub successful_executions: u64,
    /// Ids of the most used assets, most used first.
    pub most_used_assets: Vec<String>,
    /// Tokens saved: 4000 per successful execution.
    pub tokens_saved: u64,
}

/// Viewport dimensions.
#[derive(Debug, Clone, Copy)]
pub struct Viewport {
    pub width: u32,
    pub height: u32,
}

/// An interactive element on a page.
#[derive(Debug, Clone)]
pub struct ElementSchema {
    /// Unique identifier for this element.
    pub id: String,
    /// Type of element.
    pub element_type: ElementType,
    /// CSS selector (if available).
    pub selector: Option<String>,
    /// XPath selector (if available).
    pub xpath: Option<String>,
    /// Coordinates for CV-based clicking.
    pub coordinates: Option<Coordinates>,
    /// Human-readable description.
    pub description: String,
    /// Element text content (if any).
    pub text: Option<String>,
    /// Whether the element is currently visible.
    pub is_visible: bool,
    /// Whether the element is interactive.
    pub is_interactive: bool,
    /// Bounding box.
    pub bounds: Option<BoundingBox>,
    /// Additional attributes.
    pub attributes: HashMap<String, String>,
}

impl ElementSchema {
    /// A visible, interactive element with only an id, type and description.
    pub fn new(id: &str, element_type: ElementType, description: &str) -> (r: Self)
        ensures
            r.id@ == id@,
            r.description@ == description@,
            r.element_type == element_type,
            r.selector is None,
            r.xpath is None,
            r.coordinates is None,
            r.text is None,
            r.is_visible,
            r.is_interactive,
            r.bounds is None,
            r.attributes@ == Map::<String, String>::empty(),
    {
        ElementSchema {
            id: to_owned(id),
            element_type,
            selector: None,
            xpath: None,
            coordinates: None,
            description: to_owned(description),
            text: None,
            is_visible: true,
            is_interactive: true,
            bounds: None,
            attributes: HashMap::new(),
        }
    }

    /// Set the CSS selector.
    pub fn with_selector(self, selector: &str) -> (r: Self)
        ensures
            r.selector is Some,
            opt_view(r.selector) == Some(selector@),
            r == (ElementSchema { selector: r.selector, ..self }),
    {
        let mut s = self;
        s.selector = Some(to_owned(selector));
        s
    }

    /// Set click coordinates.
    pub fn with_coordinates(self, x: u32, y: u32) -> (r: Self)
        ensures
            r.coordinates == Some(Coordinates { x, y }),
            r == (ElementSchema { coordinates: r.coordinates, ..self }),
    {
        let mut s = self;
        s.coordinates = Some(Coordinates { x, y });
        s
    }

    /// Set the text content.
    pub fn with_text(self, text: &str) -> (r: Self)
        ensures
            r.text is Some,
            opt_view(r.text) == Some(text@),
            r == (ElementSchema { text: r.text, ..self }),
    {
        let mut s = self;
        s.text = Some(to_owned(text));
        s
    }
}

/// Type of UI element.
#[derive(Debug, Clone, Copy, PartialEq, Eq, Structural)]
pub enum ElementType {
    Button,
    Input,
    TextArea,
    Link,
    Cell,
    Row,
    Column,
    Menu,
    MenuItem,
    Dropdown,
    Checkbox,
    Radio,
    Tab,
    Modal,
    Image,
    Icon,
    Container,
    Other,
}

impl Default for ElementType {
    fn default() -> (r: Self)
        ensures
            r == ElementType::Other,
    {
        ElementType::Other
    }
}

/// Screen coordinates.
#[derive(Debug, Clone, Copy, PartialEq, Eq, Structural)]
pub struct Coordinates {
    pub x: u32,
    pub y: u32,
}

/// Bounding box.
#[derive(Debug, Clone, Copy)]
pub struct BoundingBox {
    pub x: u32,
    pub y: u32,
    pub width: u32,
    pub height: u32,
}

impl BoundingBox {
    /// The centre fits in screen coordinates.
    pub open spec fn center_fits(self) -> bool {
        self.x + self.width / 2 <= u32::MAX && self.y + self.height / 2 <= u32::MAX
    }

    /// Get the centre coordinates (halves rounded down).
    pub fn center(&self) -> (r: Coordinates)
        requires
            self.center_fits(),
        ensures
            r.x == self.x + self.width / 2,
            r.y == self.y + self.height / 2,
    {
        Coordinates { x: self.x + self.width / 2, y: self.y + self.height / 2 }
    }
}

/// The centre lies inside the box (on its edge for an empty box).
pub proof fn lemma_center_inside(b: BoundingBox)
    requires
        b.center_fits(),
    ensures
        b.x <= b.x + b.width / 2 <= b.x + b.width,
        b.y <= b.y + b.height / 2 <= b.y + b.height,
{
}

/// Parameter types.
#[derive(Debug, Clone, Copy, PartialEq, Eq, Structural)]
pub enum ParameterType {
    String,
    Number,
    Boolean,
    Coordinates,
    Array,
    Object,
}

/// An action parameter definition.
#[derive(Debug, Clone)]
pub struct ActionParameter {
    /// Parameter name.
    pub name: String,
    /// Parameter type.
    pub param_type: ParameterType,
    /// What the parameter means.
    pub description: String,
    /// Whether the parameter must be given.
    pub required: bool,
    /// Value used when the parameter is not given.
    pub default_value: Option<serde_json::Value>,
}

/// An action that can be performed on a page.
#[derive(Debug, Clone)]
pub struct ActionSchema {
    /// Action name (e.g., "click_cell", "enter_text").
    pub name: String,
    /// Target element id.
    pub target_element_id: String,
    /// Parameters the action accepts.
    pub parameters: Vec<ActionParameter>,
    /// What the action does.
    pub description: String,
    /// Preconditions of the action.
    pub preconditions: Vec<String>,
    /// Expected outcome.
    pub expected_outcome: Option<String>,
}

impl ActionSchema {
    /// An action with no parameters, preconditions or expected outcome.
    pub fn new(
        name: &str,
        target_element_id: &str,
        description: &str,
    ) -> (r: Self)
        ensures
            r.name@ == name@,
            r.target_element_id@ == target_element_id@,
            r.description@ == description@,
            r.parameters@.len() == 0,
            r.preconditions@.len() == 0,
            r.expected_outcome is None,
    {
        ActionSchema {
            name: to_owned(name),
            target_element_id: to_owned(target_element_id),
            parameters: Vec::new(),
            description: to_owned(description),
            preconditions: Vec::new(),
            expected_outcome: None,
        }
    }

    /// Add a parameter.
    pub fn with_parameter(self, param: ActionParameter) -> (r: Self)
        ensures
            r.parameters@ == self.parameters@.push(param),
            r == (ActionSchema { parameters: r.parameters, ..self }),
    {
        let mut s = self;
        s.parameters.push(param);
        s
    }
}

/// Type of automation script.
#[derive(Debug, Clone, Copy, PartialEq, Eq, Structural)]
pub enum ScriptType {
    /// Playwright browser automation.
    Playwright,
    /// Selenium browser automation.
    Selenium,
    /// Puppeteer browser automation.
    Puppeteer,
    /// REST API calls.
    RestApi,
    /// GraphQL API calls.
    GraphQl,
    /// Native application automation.
    Native,
}

impl Default for ScriptType {
    fn default() -> (r: Self)
        ensures
            r == ScriptType::Playwright,
    {
        ScriptType::Playwright
    }
}

/// An automation path the router can choose.  A reused script is named by its
/// id; its success rate travels beside the decision.
#[derive(Debug, Clone)]
pub enum AutomationPath {
    /// Direct API call (about 500 tokens).
    DirectApi { api_type: String, api_endpoint: Option<String> },
    /// CV exploration plus script generation.
    ExploreAndGenerate { target_url: String, estimated_tokens: u64 },
    /// Pure CV operation for small data.
    PureComputerVision { max_items: usize, estimated_tokens: u64 },
    /// Reuse an existing script asset (about 500 tokens).
    ReuseScript { script_id: String },
    /// CV for exploration, script for bulk work.
    HybridApproach { explore_phase_tokens: u64, execute_phase_tokens: u64 },
    /// Manual intervention required.
    RequiresHumanAssistance { reason: String },
}

impl AutomationPath {
    /// Estimated token cost of the path.
    pub open spec fn tokens_spec(self) -> int {
        match self {
            AutomationPath::DirectApi { .. } => 500,
            AutomationPath::ExploreAndGenerate { estimated_tokens, .. } => estimated_tokens as int,
            AutomationPath::PureComputerVision { estimated_tokens, .. } => estimated_tokens as int,
            AutomationPath::ReuseScript { .. } => 500,
            AutomationPath::HybridApproach { explore_phase_tokens, execute_phase_tokens } =>
                explore_phase_tokens + execute_phase_tokens,
            AutomationPath::RequiresHumanAssistance { .. } => 0,
        }
    }

    /// The estimate fits in a `u64`.
    pub open spec fn tokens_fit(self) -> bool {
        self.tokens_spec() <= u64::MAX
    }

    /// Get the estimated token cost.
    pub fn estimated_tokens(&self) -> (r: u64)
        requires
            self.tokens_fit(),
        ensures
            r == self.tokens_spec(),
    {
        match self {
            AutomationPath::DirectApi { .. } => 500,
            AutomationPath::ExploreAndGenerate { estimated_tokens, .. } => *estimated_tokens,
            AutomationPath::PureComputerVision { estimated_tokens, .. } => *estimated_tokens,
            AutomationPath::ReuseScript { .. } => 500,
            AutomationPath::HybridApproach { explore_phase_tokens, execute_phase_tokens } =>
                *explore_phase_tokens + *execute_phase_tokens,
            AutomationPath::RequiresHumanAssistance { .. } => 0,
        }
    }
}

/// Token and item statistics of an automation run.  The savings percentage
/// is derived from `pure_cv_estimated_tokens` and `saved_tokens`.
#[derive(Debug, Clone, Copy)]
pub struct ExecutionStats {
    /// Total execution duration in milliseconds.
    pub duration_ms: u64,
    /// Tokens used in the exploration phase.
    pub exploration_tokens: u64,
    /// Tokens used in the code generation phase.
    pub generation_tokens: u64,
    /// Tokens used in the execution phase (0 for script execution).
    pub execution_tokens: u64,
    /// Total tokens used.
    pub total_tokens: u64,
    /// Items processed.
    pub items_processed: usize,
    /// Items failed.
    pub items_failed: usize,
    /// Whether a script was reused.
    pub script_reused: bool,
    /// Estimated tokens had pure CV been used.
    pub pure_cv_estimated_tokens: u64,
}

impl ExecutionStats {
    /// Tokens saved against the pure-CV estimate (never negative).
    pub fn saved_tokens(&self) -> (r: u64)
        ensures
            r == if self.pure_cv_estimated_tokens >= self.total_tokens {
                self.pure_cv_estimated_tokens - self.total_tokens
            } else {
                0
            },
    {
        self.pure_cv_estimated_tokens.saturating_sub(self.total_tokens)
    }
}

impl Default for ExecutionStats {
    fn default() -> (r: Self)
        ensures
            r.duration_ms == 0,
            r.exploration_tokens == 0,
            r.generation_tokens == 0,
            r.execution_tokens == 0,
            r.total_tokens == 0,
            r.items_processed == 0,
            r.items_failed == 0,
            !r.script_reused,
            r.pure_cv_estimated_tokens == 0,
    {
        ExecutionStats {
            duration_ms: 0,
            exploration_tokens: 0,
            generation_tokens: 0,
            execution_tokens: 0,
            total_tokens: 0,
            items_processed: 0,
            items_failed: 0,
            script_reused: false,
            pure_cv_estimated_tokens: 0,
        }
    }
}

/// A request for automation.  Options are kept by key; the creation time is
/// held as milliseconds since the Unix epoch.
#[derive(Debug, Clone)]
pub struct AutomationRequest {
    /// Unique request id.
    pub id: String,
    /// Task description.
    pub task: String,
    /// Target URL, if known.
    pub target_url: Option<String>,
    /// Data to process.
    pub data: Vec<serde_json::Value>,
    /// Session id for stateful operations.
    pub session_id: Option<String>,
    /// Timeout in milliseconds.
    pub timeout_ms: u64,
    /// Additional options, by key.
    pub options: Vec<(String, serde_json::Value)>,
    /// When the request was made, in milliseconds since the Unix epoch.
    pub created_at_millis: i64,
}

/// The default timeout of a request: five minutes.
pub const DEFAULT_REQUEST_TIMEOUT_MS: u64 = 300000;

impl AutomationRequest {
    /// A request for a task with a fresh random id, no data and the default
    /// timeout.
    pub fn new(task: &str) -> (r: Self)
        ensures
            r.task@ == task@,
            r.target_url is None,
            r.data@.len() == 0,
            r.session_id is None,
            r.timeout_ms == DEFAULT_REQUEST_TIMEOUT_MS,
            r.options@.len() == 0,
    {
        AutomationRequest {
            id: crate::context::flags::random_uuid_text(),
            task: to_owned(task),
            target_url: None,
            data: Vec::new(),
            session_id: None,
            timeout_ms: DEFAULT_REQUEST_TIMEOUT_MS,
            options: Vec::new(),
            created_at_millis: crate::context::subagent::utc_now_millis(),
        }
    }

    /// Set the target URL.
    pub fn with_url(self, url: &str) -> (r: Self)
        ensures
            r.target_url is Some,
            opt_view(r.target_url) == Some(url@),
            r == (AutomationRequest { target_url: r.target_url, ..self }),
    {
        let mut s = self;
        s.target_url = Some(to_owned(url));
        s
    }

    /// Set the data to process.
    pub fn with_data(self, data: Vec<serde_json::Value>) -> (r: Self)
        ensures
            r == (AutomationRequest { data, ..self }),
    {
        let mut s = self;
        s.data = data;
        s
    }

    /// Set the session id.
    pub fn with_session(self, session_id: &str) -> (r: Self)
        ensures
            r.session_id is Some,
            opt_view(r.session_id) == Some(session_id@),
            r == (AutomationRequest { session_id: r.session_id, ..self }),
    {
        let mut s = self;
        s.session_id = Some(to_owned(session_id));
        s
    }

    /// The number of data items.
    pub fn data_volume(&self) -> (r: usize)
        ensures
            r == self.data@.len(),
    {
        self.data.len()
    }
}

/// The result of an automation run.  The completion time is held as
/// milliseconds since the Unix epoch.
#[derive(Debug, Clone)]
pub struct AutomationResult {
    /// The request this result answers.
    pub request_id: String,
    /// Whether the run succeeded.
    pub success: bool,
    /// Output data.
    pub output: Option<serde_json::Value>,
    /// Error message of a failed run.
    pub error: Option<String>,
    /// The path that was used.
    pub path_used: AutomationPath,
    /// Execution statistics.
    pub stats: ExecutionStats,
    /// Generated or used script id.
    pub script_id: Option<String>,
    /// When the run completed, in milliseconds since the Unix epoch.
    pub completed_at_millis: i64,
}

/// Statistics with every count zero.
pub open spec fn zero_stats(s: ExecutionStats) -> bool {
    &&& s.duration_ms == 0
    &&& s.exploration_tokens == 0
    &&& s.generation_tokens == 0
    &&& s.execution_tokens == 0
    &&& s.total_tokens == 0
    &&& s.items_processed == 0
    &&& s.items_failed == 0
    &&& !s.script_reused
    &&& s.pure_cv_estimated_tokens == 0
}

impl AutomationResult {
    /// A successful result on the given path, with empty statistics.
    pub fn success(request_id: &str, path_used: AutomationPath) -> (r: Self)
        ensures
            r.request_id@ == request_id@,
            r.success,
            r.output is None,
            r.error is None,
            r.path_used == path_used,
            zero_stats(r.stats),
            r.script_id is None,
    {
        AutomationResult {
            request_id: to_owned(request_id),
            success: true,
            output: None,
            error: None,
            path_used,
            stats: ExecutionStats::default(),
            script_id: None,
            completed_at_millis: crate::context::subagent::utc_now_millis(),
        }
    }

    /// A failed result on the given path with an error, with empty statistics.
    pub fn failure(
        request_id: &str,
        path_used: AutomationPath,
        error: &str,
    ) -> (r: Self)
        ensures
            r.request_id@ == request_id@,
            !r.success,
            r.output is None,
            r.error is Some,
            opt_view(r.error) == Some(error@),
            r.path_used == path_used,
            zero_stats(r.stats),
            r.script_id is None,
    {
        AutomationResult {
            request_id: to_owned(request_id),
            success: false,
            output: None,
            error: Some(to_owned(error)),
            path_used,
            stats: ExecutionStats::default(),
            script_id: None,
            completed_at_millis: crate::context::subagent::utc_now_millis(),
        }
    }

    /// Set the output.
    pub fn with_output(self, output: serde_json::Value) -> (r: Self)
        ensures
            r == (AutomationResult { output: Some(output), ..self }),
    {
        let mut s = self;
        s.output = Some(output);
        s
    }

    /// Set the statistics.
    pub fn with_stats(self, stats: ExecutionStats) -> (r: Self)
        ensures
            r == (AutomationResult { stats, ..self }),
    {
        let mut s = self;
        s.stats = stats;
        s
    }

    /// Set the script id.
    pub fn with_script_id(self, id: &str) -> (r: Self)
        ensures
            r.script_id is Some,
            opt_view(r.script_id) == Some(id@),
            r == (AutomationResult { script_id: r.script_id, ..self }),
    {
        let mut s = self;
        s.script_id = Some(to_owned(id));
        s
    }
}

} // verus!
