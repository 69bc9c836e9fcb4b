//! CV exploration, the second layer of the automation architecture: the
//! options and configuration of an exploration, the prompt sent with a
//! screenshot, and the reading of the model's answer.
use vstd::prelude::*;


use crate::automation::types::{
    ActionParameter, ActionSchema, BoundingBox, Coordinates, ElementSchema, ElementType,
    ParameterType, Viewport, DEFAULT_MODEL,
};
use crate::json::{
    array_of, bool_field_or, field_of, get_bool_or, get_str, get_str_or, get_u32, json_as_array,
    json_as_str, json_field, str_field, str_field_or, str_of, u32_field,
};
use crate::text::{
    chars_of, find, find_chars, find_from, lowercase, push_str, rfind, rfind_chars,
    string_from_range, str_eq, to_lowercase, to_owned, trim, trimmed_range,
};

verus! {

/// Errors of the CV explorer.
#[derive(Debug)]
pub enum ExplorerError {
    /// Screenshot failed.
    ScreenshotFailed(String),
    /// LLM analysis failed.
    AnalysisFailed(String),
    /// Browser not connected.
    BrowserNotConnected,
    /// Schema parsing failed.
    ParseError(String),
    /// Timeout.
    Timeout,
}

impl ExplorerError {
    /// The text of the error.
    pub open spec fn message_spec(&self) -> Seq<char> {
        match self {
            ExplorerError::ScreenshotFailed(m) => "Screenshot failed: "@ + m@,
            ExplorerError::AnalysisFailed(m) => "LLM analysis failed: "@ + m@,
            ExplorerError::BrowserNotConnected => "Browser not connected"@,
            ExplorerError::ParseError(m) => "Schema parsing failed: "@ + m@,
            ExplorerError::Timeout => "Timeout"@,
        }
    }

    /// The text of the error.
    pub fn message(&self) -> (r: String)
        ensures
            r@ == self.message_spec(),
    {
        match self {
            ExplorerError::ScreenshotFailed(m) => {
                let mut s = to_owned("Screenshot failed: ");
                push_str(&mut s, m.as_str());
                s
            },
            ExplorerError::AnalysisFailed(m) => {
                let mut s = to_owned("LLM analysis failed: ");
                push_str(&mut s, m.as_str());
                s
            },
            ExplorerError::BrowserNotConnected => to_owned("Browser not connected"),
            ExplorerError::ParseError(m) => {
                let mut s = to_owned("Schema parsing failed: ");
                push_str(&mut s, m.as_str());
                s
            },
            ExplorerError::Timeout => to_owned("Timeout"),
        }
    }
}

/// Options for CV exploration.
#[derive(Debug, Clone)]
pub struct ExplorationOptions {
    /// Maximum number of screenshots to take.
    pub max_screenshots: u32,
    /// Whether to scroll and explore beyond the viewport.
    pub explore_beyond_viewport: bool,
    /// Whether to detect interactive elements.
    pub detect_interactive: bool,
    /// Whether to include element coordinates.
    pub include_coordinates: bool,
    /// Whether to generate CSS selectors.
    pub generate_selectors: bool,
    /// Target viewport size.
    pub viewport: Option<Viewport>,
    /// Focus area (if known).
    pub focus_selector: Option<String>,
    /// Timeout in milliseconds.
    pub timeout_ms: u64,
}

impl Default for ExplorationOptions {
    fn default() -> (r: Self)
        ensures
            r.max_screenshots == 3,
            r.explore_beyond_viewport,
            r.detect_interactive,
            r.include_coordinates,
            r.generate_selectors,
            r.viewport is None,
            r.focus_selector is None,
            r.timeout_ms == 30000,
    {
        ExplorationOptions {
            max_screenshots: 3,
            explore_beyond_viewport: true,
            detect_interactive: true,
            include_coordinates: true,
            generate_selectors: true,
            viewport: None,
            focus_selector: None,
            timeout_ms: 30000,
        }
    }
}

/// Information about a screenshot.
#[derive(Debug, Clone)]
pub struct ScreenshotInfo {
    /// Screenshot index.
    pub index: u32,
    /// Viewport offset (for scrolled captures).
    pub scroll_offset: u32,
    /// Base64 encoded image data.
    pub data: String,
    /// Image width.
    pub width: u32,
    /// Image height.
    pub height: u32,
}

/// The default instructions given to the model that analyses screenshots.
pub const EXPLORER_SYSTEM_PROMPT: &'static str = "You are a UI analysis expert. Analyze the screenshot and identify:

1. **Interactive Elements**: Buttons, inputs, links, cells, menus
2. **Element Locations**: Provide approximate coordinates (x, y) for clicking
3. **Selectors**: CSS selectors when visible in the DOM
4. **Actions**: What actions can be performed on each element

Output a JSON PageSchema with:
- elements: Array of ElementSchema
- actions: Array of ActionSchema

For each element include:
- id: Unique identifier
- element_type: button/input/cell/link/etc
- coordinates: {x, y} for clicking
- description: What this element does
- selector: CSS selector if identifiable

For canvas-based apps (Google Sheets, Figma), focus on coordinate-based identification.
For DOM-based apps, include both selectors and coordinates.

Be concise and focus on actionable elements only.";

/// Configuration for the CV explorer.
#[derive(Debug, Clone)]
pub struct CvExplorerConfig {
    /// Model to use for analysis.
    pub model: String,
    /// Maximum tokens for analysis.
    pub max_tokens: u32,
    /// System prompt for the LLM.
    pub system_prompt: String,
}

impl Default for CvExplorerConfig {
    fn default() -> (r: Self)
        ensures
            r.model@ == DEFAULT_MODEL@,
            r.max_tokens == 4096,
            r.system_prompt@ == EXPLORER_SYSTEM_PROMPT@,
    {
        CvExplorerConfig {
            model: to_owned(DEFAULT_MODEL),
            max_tokens: 4096,
            system_prompt: to_owned(EXPLORER_SYSTEM_PROMPT),
        }
    }
}

/// The element type named by a lowercased type name.
pub open spec fn element_type_named(t: Seq<char>) -> ElementType {
    if t == "button"@ || t == "btn"@ {
        ElementType::Button
    } else if t == "input"@ || t == "textfield"@ || t == "text_field"@ {
        ElementType::Input
    } else if t == "textarea"@ || t == "text_area"@ {
        ElementType::TextArea
    } else if t == "link"@ || t == "a"@ {
        ElementType::Link
    } else if t == "cell"@ {
        ElementType::Cell
    } else if t == "row"@ {
        ElementType::Row
    } else if t == "column"@ || t == "col"@ {
        ElementType::Column
    } else if t == "menu"@ {
        ElementType::Menu
    } else if t == "menuitem"@ || t == "menu_item"@ {
        ElementType::MenuItem
    } else if t == "dropdown"@ || t == "select"@ {
        ElementType::Dropdown
    } else if t == "checkbox"@ {
        ElementType::Checkbox
    } else if t == "radio"@ {
        ElementType::Radio
    } else if t == "tab"@ {
        ElementType::Tab
    } else if t == "modal"@ || t == "dialog"@ {
        ElementType::Modal
    } else if t == "image"@ || t == "img"@ {
        ElementType::Image
    } else if t == "icon"@ {
        ElementType::Icon
    } else if t == "container"@ || t == "div"@ {
        ElementType::Container
    } else {
        ElementType::Other
    }
}

/// The parameter type named by a lowercased type name.
pub open spec fn param_type_named(t: Seq<char>) -> ParameterType {
    if t == "string"@ || t == "text"@ {
        ParameterType::String
    } else if t == "number"@ || t == "int"@ || t == "integer"@ || t == "float"@ {
        ParameterType::Number
    } else if t == "boolean"@ || t == "bool"@ {
        ParameterType::Boolean
    } else if t == "coordinates"@ || t == "point"@ {
        ParameterType::Coordinates
    } else if t == "array"@ || t == "list"@ {
        ParameterType::Array
    } else if t == "object"@ || t == "dict"@ {
        ParameterType::Object
    } else {
        ParameterType::String
    }
}

/// The inside of the first fenced `json` block of a model answer, when it is
/// not empty.
pub open spec fn fenced_json(c: Seq<char>) -> Option<Seq<char>> {
    match find(c, "```json"@) {
        Some(start) => {
            let rest = c.skip(start);
            let end = match find(rest, "```\n"@) {
                Some(e) => Some(e),
                None => rfind(rest, "```"@),
            };
            match end {
                Some(e) => if start + 7 < start + e {
                    Some(trim(c.subrange(start + 7, start + e)))
                } else {
                    None
                },
                None => None,
            }
        },
        None => None,
    }
}

/// The JSON a model answer carries: the inside of a fenced `json` block when
/// there is a non-empty one, else the text from the first `{` to the last `}`,
/// else the whole answer.
pub open spec fn extracted_json(c: Seq<char>) -> Seq<char> {
    match fenced_json(c) {
        Some(j) => j,
        None => match (find(c, "{"@), rfind(c, "}"@)) {
            (Some(s), Some(e)) => c.subrange(s, e + 1),
            _ => c,
        },
    }
}

/// An answer on which the extraction slices backwards: its first `{` comes
/// after its last `}` (and no fenced block is taken).
pub open spec fn json_braces_reversed(c: Seq<char>) -> bool {
    match (find(c, "{"@), rfind(c, "}"@)) {
        (Some(s), Some(e)) => e < s,
        _ => false,
    }
}

/// The CV explorer: analyses pages from screenshots.  `C` is the handle of the
/// screen controller, `L` that of the language-model router.
pub struct CvExplorer<C, L> {
    screen_controller: C,
    llm_router: L,
    config: CvExplorerConfig,
}


/// `e` is the element described by JSON `v`: its id, its type named in any
/// case (`other` when absent), its description, its coordinates and bounds
/// (missing numbers read as 0), selector, text and visibility when given.
pub open spec fn element_from(v: serde_json::Value, e: ElementSchema) -> bool {
    &&& str_field(v, "id"@) == Some(e.id@)
    &&& e.element_type == element_type_named(lowercase(str_field_or(v, "element_type"@, "other"@)))
    &&& e.description@ == str_field_or(v, "description"@, ""@)
    &&& e.coordinates == match field_of(v, "coordinates"@) {
        Some(c) => Some(Coordinates { x: u32_field(c, "x"@), y: u32_field(c, "y"@) }),
        None => None,
    }
    &&& match str_field(v, "selector"@) {
        Some(t) => e.selector matches Some(x) && x@ == t,
        None => e.selector is None,
    }
    &&& match str_field(v, "text"@) {
        Some(t) => e.text matches Some(x) && x@ == t,
        None => e.text is None,
    }
    &&& e.is_visible == bool_field_or(v, "is_visible"@, true)
    &&& e.bounds == match field_of(v, "bounds"@) {
        Some(b) => Some(
            BoundingBox {
                x: u32_field(b, "x"@),
                y: u32_field(b, "y"@),
                width: u32_field(b, "width"@),
                height: u32_field(b, "height"@),
            },
        ),
        None => None,
    }
    &&& e.xpath is None
    &&& e.is_interactive
    &&& e.attributes@ == Map::<String, String>::empty()
}

/// `p` is the parameter described by JSON `v`: its name, its type named in
/// any case (`string` when absent), description, whether it is required
/// (not by default) and its default value.
pub open spec fn parameter_from(v: serde_json::Value, p: ActionParameter) -> bool {
    &&& str_field(v, "name"@) == Some(p.name@)
    &&& p.param_type == param_type_named(lowercase(str_field_or(v, "type"@, "string"@)))
    &&& p.description@ == str_field_or(v, "description"@, ""@)
    &&& p.required == bool_field_or(v, "required"@, false)
    &&& p.default_value == field_of(v, "default"@)
}

/// The target of an action: `target_element_id`, else `target`.
pub open spec fn action_target(v: serde_json::Value) -> Seq<char> {
    let f = match field_of(v, "target_element_id"@) {
        Some(t) => Some(t),
        None => field_of(v, "target"@),
    };
    match f {
        Some(t) => match str_of(t) {
            Some(x) => x,
            None => ""@,
        },
        None => ""@,
    }
}

/// The parameters read from a list of JSON values, skipping those without a
/// name.
pub open spec fn parameters_from(vs: Seq<serde_json::Value>, ps: Seq<ActionParameter>) -> bool
    decreases vs.len(),
{
    if vs.len() == 0 {
        ps.len() == 0
    } else if str_field(vs.last(), "name"@) is Some {
        ps.len() > 0 && parameter_from(vs.last(), ps.last()) && parameters_from(
            vs.drop_last(),
            ps.drop_last(),
        )
    } else {
        parameters_from(vs.drop_last(), ps)
    }
}

/// `a` is the action described by JSON `v`.
pub open spec fn action_from(v: serde_json::Value, a: ActionSchema) -> bool {
    &&& str_field(v, "name"@) == Some(a.name@)
    &&& a.target_element_id@ == action_target(v)
    &&& a.description@ == str_field_or(v, "description"@, ""@)
    &&& match field_of(v, "parameters"@) {
        Some(ps) => match array_of(ps) {
            Some(items) => parameters_from(items, a.parameters@),
            None => a.parameters@.len() == 0,
        },
        None => a.parameters@.len() == 0,
    }
    &&& a.preconditions@.len() == 0
    &&& match str_field(v, "expected_outcome"@) {
        Some(t) => a.expected_outcome matches Some(x) && x@ == t,
        None => a.expected_outcome is None,
    }
}

impl<C, L> CvExplorer<C, L> {
    /// The screen controller.
    pub closed spec fn controller_spec(&self) -> C {
        self.screen_controller
    }

    /// The language-model router.
    pub closed spec fn router_spec(&self) -> L {
        self.llm_router
    }

    /// The configuration.
    pub closed spec fn config_spec(&self) -> CvExplorerConfig {
        self.config
    }

    /// Create an explorer with the default configuration.
    pub fn new(screen_controller: C, llm_router: L) -> (r: Self)
        ensures
            r.controller_spec() == screen_controller,
            r.router_spec() == llm_router,
            r.config_spec().model@ == DEFAULT_MODEL@,
            r.config_spec().max_tokens == 4096,
            r.config_spec().system_prompt@ == EXPLORER_SYSTEM_PROMPT@,
    {
        CvExplorer { screen_controller, llm_router, config: CvExplorerConfig::default() }
    }

    /// Create a builder.
    pub fn builder() -> (r: CvExplorerBuilder<C, L>)
        ensures
            r.controller_spec() is None,
            r.router_spec() is None,
            r.config_spec().model@ == DEFAULT_MODEL@,
            r.config_spec().max_tokens == 4096,
            r.config_spec().system_prompt@ == EXPLORER_SYSTEM_PROMPT@,
    {
        CvExplorerBuilder::new()
    }

    /// The configuration.
    pub fn config(&self) -> (r: &CvExplorerConfig)
        ensures
            *r == self.config_spec(),
    {
        &self.config
    }

    /// The prompt sent with a screenshot of `url`.
    pub fn build_analysis_prompt(&self, url: &str, options: &ExplorationOptions) -> (r: String)
        ensures
            r@ == "Analyze this screenshot of: "@ + url@ + "\n\n"@ + (if options.detect_interactive {
                "Focus on interactive elements that can be clicked or typed into.\n"@
            } else {
                ""@
            }) + (if options.include_coordinates {
                "Include pixel coordinates (x, y) for each element.\n"@
            } else {
                ""@
            }) + (if options.generate_selectors {
                "Generate CSS selectors where possible.\n"@
            } else {
                ""@
            }) + "\nOutput valid JSON matching the PageSchema format."@,
    {
        let mut prompt = to_owned("Analyze this screenshot of: ");
        push_str(&mut prompt, url);
        push_str(&mut prompt, "\n\n");
        let ghost p0 = prompt@;
        if options.detect_interactive {
            push_str(&mut prompt, "Focus on interactive elements that can be clicked or typed into.\n");
        } else {
            push_str(&mut prompt, "");
        }
        let ghost p1 = prompt@;
        if options.include_coordinates {
            push_str(&mut prompt, "Include pixel coordinates (x, y) for each element.\n");
        } else {
            push_str(&mut prompt, "");
        }
        if options.generate_selectors {
            push_str(&mut prompt, "Generate CSS selectors where possible.\n");
        } else {
            push_str(&mut prompt, "");
        }
        push_str(&mut prompt, "\nOutput valid JSON matching the PageSchema format.");
        prompt
    }

    /// The JSON carried by a model answer, which may wrap it in markdown.
    pub fn extract_json(&self, content: &str) -> (r: String)
        requires
            fenced_json(content@) is Some || !json_braces_reversed(content@),
        ensures
            r@ == extracted_json(content@),
    {
        let c = chars_of(content);
        let fence = chars_of("```json");
        proof {
            reveal_strlit("```json");
            reveal_strlit("{");
            reveal_strlit("}");
        }
        if let Some(start) = find_chars(c.as_slice(), fence.as_slice(), 0) {
            proof {
                lemma_find_bounds(content@, "```json"@, 0);
            }
            let rest = string_from_range(c.as_slice(), start, c.len());
            let rc = chars_of(rest.as_str());
            let close_nl = chars_of("```\n");
            let close = chars_of("```");
            let end = match find_chars(rc.as_slice(), close_nl.as_slice(), 0) {
                Some(e) => Some(e),
                None => rfind_chars(rc.as_slice(), close.as_slice()),
            };
            proof {
                assert(rc@ =~= content@.skip(start as int));
            }
            if let Some(e) = end {
                proof {
                    lemma_find_bounds(rc@, "```\n"@, 0);
                    lemma_rfind_bounds(rc@, "```"@);
                }
                if start + 7 < start + e {
                    return trimmed_range(c.as_slice(), start + 7, start + e);
                }
            }
        }
        let open = chars_of("{");
        let close = chars_of("}");
        let s = find_chars(c.as_slice(), open.as_slice(), 0);
        let e = rfind_chars(c.as_slice(), close.as_slice());
        match (s, e) {
            (Some(s), Some(e)) => {
                proof {
                    lemma_find_bounds(c@, "{"@, 0);
                    lemma_rfind_bounds(c@, "}"@);
                }
                let n = c.len();
                assert(e + 1 <= n);
                let hi = e + 1;
                string_from_range(c.as_slice(), s, hi)
            },
            _ => to_owned(content),
        }
    }

    /// The element described by a JSON value; none without a string `id`.
    pub fn parse_element(&self, value: &serde_json::Value) -> (r: Option<ElementSchema>)
        ensures
            match r {
                Some(e) => element_from(*value, e),
                None => str_field(*value, "id"@) is None,
            },
    {
        let id = match get_str(value, "id") {
            Some(id) => id,
            None => return None,
        };
        let kind = get_str_or(value, "element_type", "other");
        let element_type = self.parse_element_type(kind.as_str());
        let description = get_str_or(value, "description", "");
        let mut element = ElementSchema {
            id,
            element_type,
            selector: None,
            xpath: None,
            coordinates: None,
            description,
            text: None,
            is_visible: true,
            is_interactive: true,
            bounds: None,
            attributes: std::collections::HashMap::new(),
        };
        if let Some(coords) = json_field(value, "coordinates") {
            element.coordinates = Some(Coordinates { x: get_u32(coords, "x"), y: get_u32(coords, "y") });
        }
        if let Some(selector) = get_str(value, "selector") {
            element.selector = Some(selector);
        }
        if let Some(text) = get_str(value, "text") {
            element.text = Some(text);
        }
        element.is_visible = get_bool_or(value, "is_visible", element.is_visible);
        if let Some(bounds) = json_field(value, "bounds") {
            element.bounds = Some(
                BoundingBox {
                    x: get_u32(bounds, "x"),
                    y: get_u32(bounds, "y"),
                    width: get_u32(bounds, "width"),
                    height: get_u32(bounds, "height"),
                },
            );
        }
        Some(element)
    }

    /// The action parameter described by a JSON value; none without a string
    /// `name`.
    pub fn parse_action_parameter(&self, value: &serde_json::Value) -> (r: Option<ActionParameter>)
        ensures
            match r {
                Some(p) => parameter_from(*value, p),
                None => str_field(*value, "name"@) is None,
            },
    {
        let name = match get_str(value, "name") {
            Some(n) => n,
            None => return None,
        };
        let kind = get_str_or(value, "type", "string");
        let param_type = self.parse_param_type(kind.as_str());
        let description = get_str_or(value, "description", "");
        let required = get_bool_or(value, "required", false);
        let default_value = match json_field(value, "default") {
            Some(d) => Some(d.clone()),
            None => None,
        };
        Some(ActionParameter { name, param_type, description, required, default_value })
    }

    /// The action described by a JSON value; none without a string `name`.
    pub fn parse_action(&self, value: &serde_json::Value) -> (r: Option<ActionSchema>)
        ensures
            match r {
                Some(a) => action_from(*value, a),
                None => str_field(*value, "name"@) is None,
            },
    {
        let name = match get_str(value, "name") {
            Some(n) => n,
            None => return None,
        };
        let target_field = match json_field(value, "target_element_id") {
            Some(t) => Some(t),
            None => json_field(value, "target"),
        };
        let target = match target_field {
            Some(t) => match json_as_str(t) {
                Some(x) => to_owned(x),
                None => to_owned(""),
            },
            None => to_owned(""),
        };
        let description = get_str_or(value, "description", "");
        let mut action = ActionSchema {
            name,
            target_element_id: target,
            parameters: Vec::new(),
            description,
            preconditions: Vec::new(),
            expected_outcome: None,
        };
        if let Some(params) = json_field(value, "parameters") {
            if let Some(items) = json_as_array(params) {
                let mut i: usize = 0;
                proof {
                    assert(items@.take(0) =~= Seq::<serde_json::Value>::empty());
                }
                while i < items.len()
                    invariant
                        0 <= i <= items@.len(),
                        parameters_from(items@.take(i as int), action.parameters@),
                        str_field(*value, "name"@) == Some(action.name@),
                        action.target_element_id@ == action_target(*value),
                        action.description@ == str_field_or(*value, "description"@, ""@),
                        action.preconditions@.len() == 0,
                        action.expected_outcome is None,
                    decreases items.len() - i,
                {
                    let ghost before = action.parameters@;
                    if let Some(p) = self.parse_action_parameter(&items[i]) {
                        action.parameters.push(p);
                    }
                    proof {
                        let t = items@.take(i + 1);
                        assert(t.drop_last() =~= items@.take(i as int));
                        assert(t.last() == items@[i as int]);
                        if str_field(items@[i as int], "name"@) is Some {
                            assert(action.parameters@.drop_last() =~= before);
                        }
                    }
                    i = i + 1;
                }
                proof {
                    assert(items@.take(items@.len() as int) =~= items@);
                }
            }
        }
        if let Some(outcome) = get_str(value, "expected_outcome") {
            action.expected_outcome = Some(outcome);
        }
        Some(action)
    }

    /// The element type named by `s`, in any case.
    pub fn parse_element_type(&self, s: &str) -> (r: ElementType)
        ensures
            r == element_type_named(lowercase(s@)),
    {
        let l = to_lowercase(s);
        let t = l.as_str();
        if str_eq(t, "button") || str_eq(t, "btn") {
            ElementType::Button
        } else if str_eq(t, "input") || str_eq(t, "textfield") || str_eq(t, "text_field") {
            ElementType::Input
        } else if str_eq(t, "textarea") || str_eq(t, "text_area") {
            ElementType::TextArea
        } else if str_eq(t, "link") || str_eq(t, "a") {
            ElementType::Link
        } else if str_eq(t, "cell") {
            ElementType::Cell
        } else if str_eq(t, "row") {
            ElementType::Row
        } else if str_eq(t, "column") || str_eq(t, "col") {
            ElementType::Column
        } else if str_eq(t, "menu") {
            ElementType::Menu
        } else if str_eq(t, "menuitem") || str_eq(t, "menu_item") {
            ElementType::MenuItem
        } else if str_eq(t, "dropdown") || str_eq(t, "select") {
            ElementType::Dropdown
        } else if str_eq(t, "checkbox") {
            ElementType::Checkbox
        } else if str_eq(t, "radio") {
            ElementType::Radio
        } else if str_eq(t, "tab") {
            ElementType::Tab
        } else if str_eq(t, "modal") || str_eq(t, "dialog") {
            ElementType::Modal
        } else if str_eq(t, "image") || str_eq(t, "img") {
            ElementType::Image
        } else if str_eq(t, "icon") {
            ElementType::Icon
        } else if str_eq(t, "container") || str_eq(t, "div") {
            ElementType::Container
        } else {
            ElementType::Other
        }
    }

    /// The parameter type named by `s`, in any case (strings by default).
    pub fn parse_param_type(&self, s: &str) -> (r: ParameterType)
        ensures
            r == param_type_named(lowercase(s@)),
    {
        let l = to_lowercase(s);
        let t = l.as_str();
        if str_eq(t, "string") || str_eq(t, "text") {
            ParameterType::String
        } else if str_eq(t, "number") || str_eq(t, "int") || str_eq(t, "integer") || str_eq(
            t,
            "float",
        ) {
            ParameterType::Number
        } else if str_eq(t, "boolean") || str_eq(t, "bool") {
            ParameterType::Boolean
        } else if str_eq(t, "coordinates") || str_eq(t, "point") {
            ParameterType::Coordinates
        } else if str_eq(t, "array") || str_eq(t, "list") {
            ParameterType::Array
        } else if str_eq(t, "object") || str_eq(t, "dict") {
            ParameterType::Object
        } else {
            ParameterType::String
        }
    }
}

/// A found position lies inside the text, with the needle there.
pub proof fn lemma_find_bounds(hay: Seq<char>, needle: Seq<char>, from: int)
    ensures
        find_from(hay, needle, from) matches Some(i) ==> from <= i && occurs_at_pos(hay, needle, i),
    decreases hay.len() + 1 - from,
{
    if from >= 0 && from + needle.len() <= hay.len() && !crate::text::occurs_at(hay, needle, from) {
        lemma_find_bounds(hay, needle, from + 1);
    }
}

/// `needle` occurs in `hay` at `i`.
pub open spec fn occurs_at_pos(hay: Seq<char>, needle: Seq<char>, i: int) -> bool {
    crate::text::occurs_at(hay, needle, i)
}

/// A position found from the end lies inside the text, with the needle there.
pub proof fn lemma_rfind_bounds(hay: Seq<char>, needle: Seq<char>)
    ensures
        rfind(hay, needle) matches Some(i) ==> occurs_at_pos(hay, needle, i),
{
    lemma_rfind_upto_bounds(hay, needle, hay.len() - needle.len());
}

proof fn lemma_rfind_upto_bounds(hay: Seq<char>, needle: Seq<char>, i: int)
    ensures
        crate::text::rfind_upto(hay, needle, i) matches Some(k) ==> k <= i && occurs_at_pos(
            hay,
            needle,
            k,
        ),
    decreases i + 1,
{
    if i >= 0 && !crate::text::occurs_at(hay, needle, i) {
        lemma_rfind_upto_bounds(hay, needle, i - 1);
    }
}

/// Builder for a CV explorer.
pub struct CvExplorerBuilder<C, L> {
    screen_controller: Option<C>,
    llm_router: Option<L>,
    config: CvExplorerConfig,
}

impl<C, L> CvExplorerBuilder<C, L> {
    /// The screen controller set so far.
    pub closed spec fn controller_spec(&self) -> Option<C> {
        self.screen_controller
    }

    /// The language-model router set so far.
    pub closed spec fn router_spec(&self) -> Option<L> {
        self.llm_router
    }

    /// The configuration so far.
    pub closed spec fn config_spec(&self) -> CvExplorerConfig {
        self.config
    }

    /// Create a builder with nothing set and the default configuration.
    pub fn new() -> (r: Self)
        ensures
            r.controller_spec() is None,
            r.router_spec() is None,
            r.config_spec().model@ == DEFAULT_MODEL@,
            r.config_spec().max_tokens == 4096,
            r.config_spec().system_prompt@ == EXPLORER_SYSTEM_PROMPT@,
    {
        CvExplorerBuilder {
            screen_controller: None,
            llm_router: None,
            config: CvExplorerConfig::default(),
        }
    }

    /// Set the screen controller.
    pub fn screen_controller(self, controller: C) -> (r: Self)
        ensures
            r.controller_spec() == Some(controller),
            r.router_spec() == self.router_spec(),
            r.config_spec() == self.config_spec(),
    {
        let mut b = self;
        b.screen_controller = Some(controller);
        b
    }

    /// Set the language-model router.
    pub fn llm_router(self, router: L) -> (r: Self)
        ensures
            r.router_spec() == Some(router),
            r.controller_spec() == self.controller_spec(),
            r.config_spec() == self.config_spec(),
    {
        let mut b = self;
        b.llm_router = Some(router);
        b
    }

    /// Set the model.
    pub fn model(self, model: &str) -> (r: Self)
        ensures
            r.config_spec().model@ == model@,
            r.config_spec().max_tokens == self.config_spec().max_tokens,
            r.config_spec().system_prompt == self.config_spec().system_prompt,
            r.controller_spec() == self.controller_spec(),
            r.router_spec() == self.router_spec(),
    {
        let mut b = self;
        b.config.model = to_owned(model);
        b
    }

    /// Set the token limit.
    pub fn max_tokens(self, tokens: u32) -> (r: Self)
        ensures
            r.config_spec().max_tokens == tokens,
            r.config_spec().model == self.config_spec().model,
            r.config_spec().system_prompt == self.config_spec().system_prompt,
            r.controller_spec() == self.controller_spec(),
            r.router_spec() == self.router_spec(),
    {
        let mut b = self;
        b.config.max_tokens = tokens;
        b
    }

    /// Set the system prompt.
    pub fn system_prompt(self, prompt: &str) -> (r: Self)
        ensures
            r.config_spec().system_prompt@ == prompt@,
            r.config_spec().model == self.config_spec().model,
            r.config_spec().max_tokens == self.config_spec().max_tokens,
            r.controller_spec() == self.controller_spec(),
            r.router_spec() == self.router_spec(),
    {
        let mut b = self;
        b.config.system_prompt = to_owned(prompt);
        b
    }

    /// Build the explorer: both the screen controller and the router are needed.
    pub fn build(self) -> (r: Result<CvExplorer<C, L>, ExplorerError>)
        ensures
            match (self.controller_spec(), self.router_spec()) {
                (Some(c), Some(l)) => r matches Ok(e) && e.controller_spec() == c
                    && e.router_spec() == l && e.config_spec() == self.config_spec(),
                (None, _) => r matches Err(ExplorerError::BrowserNotConnected),
                (Some(_), None) => r matches Err(ExplorerError::AnalysisFailed(m)) && m@
                    == "LLM router not provided"@,
            },
    {
        match self.screen_controller {
            None => Err(ExplorerError::BrowserNotConnected),
            Some(screen_controller) => match self.llm_router {
                None => Err(ExplorerError::AnalysisFailed(to_owned("LLM router not provided"))),
                Some(llm_router) => Ok(
                    CvExplorer { screen_controller, llm_router, config: self.config },
                ),
            },
        }
    }
}

impl<C, L> Default for CvExplorerBuilder<C, L> {
    fn default() -> (r: Self)
        ensures
            r.controller_spec() is None,
            r.router_spec() is None,
            r.config_spec().model@ == DEFAULT_MODEL@,
            r.config_spec().max_tokens == 4096,
            r.config_spec().system_prompt@ == EXPLORER_SYSTEM_PROMPT@,
    {
        Self::new()
    }
}

} // verus!
