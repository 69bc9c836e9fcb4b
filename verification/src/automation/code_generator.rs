//! Script generation, the third layer of the automation architecture: the
//! options and configuration of a generation, the prompt sent to the model,
//! the reading of its answer and the checks made on the script.
use vstd::prelude::*;


use crate::automation::types::{
    hash_pair, hash_pair_hex, GeneratedScript, PageSchema, ScriptMetadata, ScriptType, DEFAULT_MODEL,
};
use crate::text::{
    chars_of, lowercase, to_lowercase, contains, decimal, find, find_chars, find_from, push_decimal, push_str, starts_with,
    str_contains, str_starts_with, to_owned, trim, trimmed_range, trim_string,
};

verus! {

/// Errors of the code generator.
#[derive(Debug)]
pub enum GeneratorError {
    /// LLM generation failed.
    GenerationFailed(String),
    /// Invalid schema.
    InvalidSchema(String),
    /// Script validation failed.
    ValidationFailed(String),
    /// Unsupported script type.
    UnsupportedScriptType(String),
}

impl GeneratorError {
    /// The text of the error.
    pub open spec fn message_spec(&self) -> Seq<char> {
        match self {
            GeneratorError::GenerationFailed(m) => "LLM generation failed: "@ + m@,
            GeneratorError::InvalidSchema(m) => "Invalid schema: "@ + m@,
            GeneratorError::ValidationFailed(m) => "Script validation failed: "@ + m@,
            GeneratorError::UnsupportedScriptType(m) => "Unsupported script type: "@ + m@,
        }
    }

    /// The text of the error.
    pub fn message(&self) -> (r: String)
        ensures
            r@ == self.message_spec(),
    {
        let (head, m) = match self {
            GeneratorError::GenerationFailed(m) => (to_owned("LLM generation failed: "), m),
            GeneratorError::InvalidSchema(m) => (to_owned("Invalid schema: "), m),
            GeneratorError::ValidationFailed(m) => (to_owned("Script validation failed: "), m),
            GeneratorError::UnsupportedScriptType(m) => (to_owned("Unsupported script type: "), m),
        };
        let mut s = head;
        push_str(&mut s, m.as_str());
        s
    }
}

/// Options for code generation.
#[derive(Debug, Clone)]
pub struct GenerationOptions {
    /// Target script type.
    pub script_type: ScriptType,
    /// Whether to include retry logic.
    pub include_retry: bool,
    /// Maximum retries.
    pub max_retries: u32,
    /// Whether to include pagination handling.
    pub handle_pagination: bool,
    /// Whether to include error handling.
    pub include_error_handling: bool,
    /// Whether to add logging.
    pub include_logging: bool,
    /// Whether to validate the generated script.
    pub validate_script: bool,
    /// Custom template to use.
    pub template: Option<String>,
    /// Timeout for operations (milliseconds).
    pub operation_timeout_ms: u64,
}

impl Default for GenerationOptions {
    fn default() -> (r: Self)
        ensures
            r.script_type == ScriptType::Playwright,
            r.include_retry,
            r.max_retries == 3,
            !r.handle_pagination,
            r.include_error_handling,
            r.include_logging,
            r.validate_script,
            r.template is None,
            r.operation_timeout_ms == 30000,
    {
        GenerationOptions {
            script_type: ScriptType::Playwright,
            include_retry: true,
            max_retries: 3,
            handle_pagination: false,
            include_error_handling: true,
            include_logging: true,
            validate_script: true,
            template: None,
            operation_timeout_ms: 30000,
        }
    }
}

/// A fixed piece of the Playwright placeholder script.
pub const PLAYWRIGHT_HEAD: &'static str = "\n// Auto-generated Playwright script\n// Task: ";

/// A fixed piece of the Playwright placeholder script.
pub const PLAYWRIGHT_URL: &'static str = "\n// Target URL: ";

/// A fixed piece of the Playwright placeholder script.
pub const PLAYWRIGHT_GOTO: &'static str = "\n\nconst { chromium } = require('playwright');\n\nasync function processData(data) {\n    const browser = await chromium.launch({ headless: false });\n    const page = await browser.newPage();\n    const results = [];\n\n    try {\n        await page.goto('";

/// A fixed piece of the Playwright placeholder script.
pub const PLAYWRIGHT_ELEMENTS: &'static str = "');\n        await page.waitForLoadState('networkidle');\n\n        for (const item of data) {\n            try {\n                // TODO: Add actual automation logic based on schema\n                // Schema has ";

/// A fixed piece of the Playwright placeholder script.
pub const PLAYWRIGHT_ACTIONS: &'static str = " elements and ";

/// A fixed piece of the Playwright placeholder script.
pub const PLAYWRIGHT_TAIL: &'static str = " actions\n                results.push({ success: true, item });\n            } catch (error) {\n                results.push({ success: false, item, error: error.message });\n            }\n        }\n    } finally {\n        await browser.close();\n    }\n\n    return results;\n}\n\nmodule.exports = { processData };\n";

/// A fixed piece of the Selenium placeholder script.
pub const SELENIUM_HEAD: &'static str = "\n# Auto-generated Selenium script\n# Task: ";

/// A fixed piece of the Selenium placeholder script.
pub const SELENIUM_URL: &'static str = "\n# Target URL: ";

/// A fixed piece of the Selenium placeholder script.
pub const SELENIUM_GET: &'static str = "\n\nfrom selenium import webdriver\nfrom selenium.webdriver.common.by import By\nfrom selenium.webdriver.support.ui import WebDriverWait\nfrom selenium.webdriver.support import expected_conditions as EC\n\ndef process_data(data):\n    driver = webdriver.Chrome()\n    results = []\n\n    try:\n        driver.get('";

/// A fixed piece of the Selenium placeholder script.
pub const SELENIUM_ELEMENTS: &'static str = "')\n        WebDriverWait(driver, 10).until(\n            EC.presence_of_element_located((By.TAG_NAME, \"body\"))\n        )\n\n        for item in data:\n            try:\n                # TODO: Add actual automation logic based on schema\n                # Schema has ";

/// A fixed piece of the Selenium placeholder script.
pub const SELENIUM_ACTIONS: &'static str = " elements and ";

/// A fixed piece of the Selenium placeholder script.
pub const SELENIUM_TAIL: &'static str = " actions\n                results.append({'success': True, 'item': item})\n            except Exception as e:\n                results.append({'success': False, 'item': item, 'error': str(e)})\n    finally:\n        driver.quit()\n\n    return results\n\nif __name__ == '__main__':\n    import sys\n    import json\n    data = json.loads(sys.argv[1]) if len(sys.argv) > 1 else []\n    print(json.dumps(process_data(data)))\n";

/// The `playwright_data_entry` template.
pub const PLAYWRIGHT_DATA_ENTRY_TEMPLATE: &'static str = "\nconst { chromium } = require('playwright');\n\nasync function processData(data) {\n    const browser = await chromium.launch({ headless: false });\n    const page = await browser.newPage();\n\n    const results = [];\n\n    for (const item of data) {\n        try {\n            // Navigate and interact based on schema\n            results.push({ success: true, item });\n        } catch (error) {\n            results.push({ success: false, item, error: error.message });\n        }\n    }\n\n    await browser.close();\n    return results;\n}\n\nmodule.exports = { processData };\n";

/// The `selenium_data_entry` template.
pub const SELENIUM_DATA_ENTRY_TEMPLATE: &'static str = "\nfrom selenium import webdriver\nfrom selenium.webdriver.common.by import By\nfrom selenium.webdriver.support.ui import WebDriverWait\nfrom selenium.webdriver.support import expected_conditions as EC\n\ndef process_data(data):\n    driver = webdriver.Chrome()\n    results = []\n\n    try:\n        for item in data:\n            try:\n                results.append({'success': True, 'item': item})\n            except Exception as e:\n                results.append({'success': False, 'item': item, 'error': str(e)})\n    finally:\n        driver.quit()\n\n    return results\n";

/// The `rest_api` template.
pub const REST_API_TEMPLATE: &'static str = "\nimport requests\nfrom typing import List, Dict, Any\n\ndef process_data(data: List[Dict], base_url: str, headers: Dict = None) -> List[Dict]:\n    results = []\n    session = requests.Session()\n\n    if headers:\n        session.headers.update(headers)\n\n    for item in data:\n        try:\n            response = session.post(f\"{base_url}/api/endpoint\", json=item)\n            response.raise_for_status()\n            results.append({'success': True, 'item': item, 'response': response.json()})\n        except Exception as e:\n            results.append({'success': False, 'item': item, 'error': str(e)})\n\n    return results\n";

/// The default instructions given to the model that writes scripts.
pub const GENERATOR_SYSTEM_PROMPT: &'static str = "You are an expert automation script generator. Generate clean, efficient scripts based on the provided page schema and task.\n\nGuidelines:\n1. Use the exact selectors/coordinates from the schema\n2. Include proper waits for elements to load\n3. Handle errors gracefully\n4. Make the script data-driven (accept data as parameter)\n5. Do NOT include actual business data in the script\n6. Output only valid, executable code\n\nFor Playwright scripts:\n- Use async/await syntax\n- Use page.waitForSelector before interactions\n- Use page.click() with coordinates for canvas apps\n- Use page.fill() for text inputs\n\nThe script should:\n- Accept data as a parameter (array of objects)\n- Iterate through data items\n- Perform the required action for each item\n- Return results/errors";

/// Configuration for the code generator.
#[derive(Debug, Clone)]
pub struct CodeGeneratorConfig {
    /// Model to use for generation.
    pub model: String,
    /// Maximum tokens for generation.
    pub max_tokens: u32,
    /// System prompt for code generation.
    pub system_prompt: String,
}

impl Default for CodeGeneratorConfig {
    fn default() -> (r: Self)
        ensures
            r.model@ == DEFAULT_MODEL@,
            r.max_tokens == 2048,
            r.system_prompt@ == GENERATOR_SYSTEM_PROMPT@,
    {
        CodeGeneratorConfig {
            model: to_owned(DEFAULT_MODEL),
            max_tokens: 2048,
            system_prompt: to_owned(GENERATOR_SYSTEM_PROMPT),
        }
    }
}

/// The placeholder script written for a task on a page with the given numbers
/// of elements and actions.
pub open spec fn placeholder_code(
    task: Seq<char>,
    url: Seq<char>,
    elements: nat,
    actions: nat,
    t: ScriptType,
) -> Seq<char> {
    match t {
        ScriptType::Playwright => PLAYWRIGHT_HEAD@ + task + PLAYWRIGHT_URL@ + url + PLAYWRIGHT_GOTO@
            + url + PLAYWRIGHT_ELEMENTS@ + decimal(elements) + PLAYWRIGHT_ACTIONS@ + decimal(
            actions,
        ) + PLAYWRIGHT_TAIL@,
        ScriptType::Selenium => SELENIUM_HEAD@ + task + SELENIUM_URL@ + url + SELENIUM_GET@ + url
            + SELENIUM_ELEMENTS@ + decimal(elements) + SELENIUM_ACTIONS@ + decimal(actions)
            + SELENIUM_TAIL@,
        _ => "// Placeholder script for task: "@ + task,
    }
}

/// How a script type is named in the generation prompt.
pub open spec fn script_type_name(t: ScriptType) -> Seq<char> {
    match t {
        ScriptType::Playwright => "Playwright (JavaScript/TypeScript)"@,
        ScriptType::Selenium => "Selenium (Python)"@,
        ScriptType::Puppeteer => "Puppeteer (JavaScript)"@,
        ScriptType::RestApi => "REST API calls (Python requests)"@,
        ScriptType::GraphQl => "GraphQL (Python)"@,
        ScriptType::Native => "Native automation"@,
    }
}

/// The prompt asking the model for a script, given the page schema as JSON.
pub open spec fn generation_prompt(
    task: Seq<char>,
    schema_json: Seq<char>,
    o: GenerationOptions,
) -> Seq<char> {
    "Generate a "@ + script_type_name(o.script_type)
        + " script for the following task:\n\n## Task\n"@ + task + "\n\n## Page Schema\n"@
        + schema_json + "\n\n## Requirements\n"@ + (if o.include_retry {
        "- Include retry logic with max "@ + decimal(o.max_retries as nat) + " retries\n"@
    } else {
        ""@
    }) + (if o.handle_pagination {
        "- Handle pagination if present\n"@
    } else {
        ""@
    }) + (if o.include_error_handling {
        "- Include comprehensive error handling\n"@
    } else {
        ""@
    }) + (if o.include_logging {
        "- Add logging for debugging\n"@
    } else {
        ""@
    }) + "- Operation timeout: "@ + decimal(o.operation_timeout_ms as nat) + "ms\n"@
        + "\n## Output\nProvide only the script code, no explanations."@ + match o.template {
        Some(t) => "\n\n## Template\n"@ + t@,
        None => ""@,
    }
}

/// The code-fence markers tried, in order, for a script type.
pub open spec fn fence_markers(t: ScriptType) -> Seq<Seq<char>> {
    match t {
        ScriptType::Playwright | ScriptType::Puppeteer => seq![
            "```javascript"@,
            "```typescript"@,
            "```js"@,
            "```ts"@,
        ],
        ScriptType::Selenium | ScriptType::RestApi | ScriptType::GraphQl => seq![
            "```python"@,
            "```py"@,
        ],
        ScriptType::Native => seq!["```"@],
    }
}

/// The code after the first occurrence of `m`, up to the next fence, trimmed.
pub open spec fn block_after(c: Seq<char>, m: Seq<char>) -> Option<Seq<char>> {
    match find(c, m) {
        Some(start) => {
            let cs = start + m.len();
            match find(c.skip(cs), "```"@) {
                Some(e) => Some(trim(c.subrange(cs, cs + e))),
                None => None,
            }
        },
        None => None,
    }
}

/// The block of the first marker, in order, that has a closed block.
pub open spec fn first_marked_block(c: Seq<char>, ms: Seq<Seq<char>>) -> Option<Seq<char>>
    decreases ms.len(),
{
    if ms.len() == 0 {
        None
    } else {
        match block_after(c, ms[0]) {
            Some(b) => Some(b),
            None => first_marked_block(c, ms.drop_first()),
        }
    }
}

/// The first fenced block of any language: the text after the fence's line,
/// up to the next fence, trimmed.
pub open spec fn generic_block(c: Seq<char>) -> Option<Seq<char>> {
    match find(c, "```"@) {
        Some(start) => {
            let cs = start + 3;
            let actual = match find(c.skip(cs), "\n"@) {
                Some(n) => cs + n + 1,
                None => cs,
            };
            match find(c.skip(actual), "```"@) {
                Some(e) => Some(trim(c.subrange(actual, actual + e))),
                None => None,
            }
        },
        None => None,
    }
}

/// The code carried by a model answer.
pub open spec fn extracted_code(c: Seq<char>, t: ScriptType) -> Seq<char> {
    match first_marked_block(c, fence_markers(t)) {
        Some(b) => b,
        None => match generic_block(c) {
            Some(b) => b,
            None => trim(c),
        },
    }
}

/// A script with the comment header its language expects, when it starts with
/// no header, import or declaration.
pub open spec fn processed_code(code: Seq<char>, t: ScriptType) -> Seq<char> {
    match t {
        ScriptType::Playwright | ScriptType::Puppeteer => if !starts_with(code, "//"@)
            && !starts_with(code, "const"@) && !starts_with(code, "import"@) {
            "// Auto-generated automation script\n"@ + code
        } else {
            code
        },
        ScriptType::Selenium | ScriptType::RestApi | ScriptType::GraphQl => if !starts_with(
            code,
            "#"@,
        ) && !starts_with(code, "import"@) && !starts_with(code, "from"@) {
            "# Auto-generated automation script\n"@ + code
        } else {
            code
        },
        ScriptType::Native => code,
    }
}

/// The problems found in a script of the given type.
pub open spec fn script_problems(code: Seq<char>, t: ScriptType) -> Seq<Seq<char>> {
    match t {
        ScriptType::Playwright => if !contains(code, "page."@) && !contains(code, "browser"@)
            && !contains(code, "chromium"@) {
            seq!["Script doesn't appear to use Playwright API"@]
        } else {
            seq![]
        },
        ScriptType::Selenium => if !contains(code, "driver"@) && !contains(code, "webdriver"@) {
            seq!["Script doesn't appear to use Selenium API"@]
        } else {
            seq![]
        },
        ScriptType::RestApi => if !contains(code, "requests"@) && !contains(code, "fetch"@)
            && !contains(code, "http"@) {
            seq!["Script doesn't appear to make HTTP requests"@]
        } else {
            seq![]
        },
        _ => seq![],
    }
}

/// The language a script type is written in.
pub open spec fn language_of(t: ScriptType) -> Seq<char> {
    match t {
        ScriptType::Playwright | ScriptType::Puppeteer => "javascript"@,
        ScriptType::Selenium | ScriptType::RestApi | ScriptType::GraphQl => "python"@,
        ScriptType::Native => "shell"@,
    }
}

/// A script ready to be stored: its code, language and the checks made on it.
#[derive(Debug, Clone)]
pub struct PreparedScript {
    /// The code.
    pub code: String,
    /// The language of the code.
    pub language: String,
    /// Whether the checks passed.
    pub validation_passed: bool,
    /// The problems found.
    pub validation_errors: Vec<String>,
}

/// The outcome of a generation: the script, the tokens spent on it, how
/// long it took and the checks made on it.
#[derive(Debug)]
pub struct GenerationResult {
    /// Generated script.
    pub script: GeneratedScript,
    /// Token usage.
    pub tokens_used: u64,
    /// Generation duration in milliseconds.
    pub duration_ms: u64,
    /// Whether the checks passed.
    pub validation_passed: bool,
    /// The problems found.
    pub validation_errors: Vec<String>,
    /// Warnings.
    pub warnings: Vec<String>,
}

/// The views of a vector of strings.
pub open spec fn string_views(v: Seq<String>) -> Seq<Seq<char>> {
    Seq::new(v.len(), |i: int| v[i]@)
}

/// The code generator: writes automation scripts for a page.  `L` is the
/// handle of the language-model router.
pub struct CodeGenerator<L> {
    llm_router: L,
    config: CodeGeneratorConfig,
}

impl<L> CodeGenerator<L> {
    /// The language-model router.
    pub closed spec fn router_spec(&self) -> L {
        self.llm_router
    }

    /// The configuration.
    pub closed spec fn config_spec(&self) -> CodeGeneratorConfig {
        self.config
    }

    /// Create a generator with the default configuration.
    pub fn new(llm_router: L) -> (r: Self)
        ensures
            r.router_spec() == llm_router,
            r.config_spec().model@ == DEFAULT_MODEL@,
            r.config_spec().max_tokens == 2048,
            r.config_spec().system_prompt@ == GENERATOR_SYSTEM_PROMPT@,
    {
        CodeGenerator { llm_router, config: CodeGeneratorConfig::default() }
    }

    /// Create a builder.
    pub fn builder() -> (r: CodeGeneratorBuilder<L>)
        ensures
            r.router_spec() is None,
            r.config_spec().model@ == DEFAULT_MODEL@,
            r.config_spec().max_tokens == 2048,
            r.config_spec().system_prompt@ == GENERATOR_SYSTEM_PROMPT@,
    {
        CodeGeneratorBuilder::new()
    }

    /// The configuration.
    pub fn config(&self) -> (r: &CodeGeneratorConfig)
        ensures
            *r == self.config_spec(),
    {
        &self.config
    }

    /// Prepare the script for a task on a page: the page must have a URL; the
    /// placeholder code is given its header and checked when the options ask.
    pub fn prepare_script(
        &self,
        task: &str,
        url: &str,
        element_count: usize,
        action_count: usize,
        options: &GenerationOptions,
    ) -> (r: Result<PreparedScript, GeneratorError>)
        ensures
            url@.len() == 0 ==> (r matches Err(GeneratorError::InvalidSchema(m)) && m@
                == "Schema has no URL"@),
            url@.len() > 0 ==> (r matches Ok(p) && {
                let code = processed_code(
                    placeholder_code(
                        task@,
                        url@,
                        element_count as nat,
                        action_count as nat,
                        options.script_type,
                    ),
                    options.script_type,
                );
                &&& p.code@ == code
                &&& p.language@ == language_of(options.script_type)
                &&& if options.validate_script {
                    &&& string_views(p.validation_errors@) == script_problems(
                        code,
                        options.script_type,
                    )
                    &&& p.validation_passed == (script_problems(code, options.script_type).len()
                        == 0)
                } else {
                    p.validation_passed && p.validation_errors@.len() == 0
                }
            }),
    {
        self.validate_schema(url)?;
        let code = self.generate_placeholder_code(task, url, element_count, action_count, options);
        let processed = self.post_process_code(code.as_str(), options);
        let (validation_passed, validation_errors) = if options.validate_script {
            self.validate_script(processed.as_str(), options.script_type)
        } else {
            (true, Vec::new())
        };
        let language = self.get_language(options.script_type);
        Ok(PreparedScript { code: processed, language, validation_passed, validation_errors })
    }

    /// The signature a generated script is cached under: `gen_` followed by
    /// the hash of the lowercased task and the URL.
    pub fn generate_task_signature(&self, task: &str, url: &str) -> (r: String)
        ensures
            r@ == "gen_"@ + hash_pair_hex(lowercase(task@), url@),
    {
        let lower = to_lowercase(task);
        let hash = hash_pair(lower.as_str(), url);
        let mut r = to_owned("gen_");
        push_str(&mut r, hash.as_str());
        r
    }

    /// Generates the script for a task on a page: the page must have a URL;
    /// the placeholder code gets its header and, when the options ask, its
    /// checks; the script is cached under the task's signature and the
    /// page's hash, at an estimated 800 tokens.
    pub fn generate(&self, task: &str, schema: &PageSchema, options: GenerationOptions) -> (r: Result<
        GenerationResult,
        GeneratorError,
    >)
        ensures
            schema.url@.len() == 0 ==> (r matches Err(GeneratorError::InvalidSchema(m)) && m@
                == "Schema has no URL"@),
            schema.url@.len() > 0 ==> (r matches Ok(g) && {
                let code = processed_code(
                    placeholder_code(
                        task@,
                        schema.url@,
                        schema.elements@.len(),
                        schema.actions@.len(),
                        options.script_type,
                    ),
                    options.script_type,
                );
                &&& g.script.script_type == options.script_type
                &&& g.script.code@ == code
                &&& g.script.language@ == language_of(options.script_type)
                &&& g.script.schema_hash@ == schema.schema_hash@
                &&& g.script.task_signature@ == "gen_"@ + hash_pair_hex(
                    lowercase(task@),
                    schema.url@,
                )
                &&& g.script.metadata.properties@.len() == 0
                &&& g.tokens_used == 800
                &&& if options.validate_script {
                    &&& string_views(g.validation_errors@) == script_problems(
                        code,
                        options.script_type,
                    )
                    &&& g.validation_passed == (script_problems(code, options.script_type).len()
                        == 0)
                } else {
                    g.validation_passed && g.validation_errors@.len() == 0
                }
                &&& g.warnings@.len() == 0
            }),
    {
        let start = crate::clock::instant_now();
        let prepared = self.prepare_script(
            task,
            schema.url.as_str(),
            schema.elements.len(),
            schema.actions.len(),
            &options,
        )?;
        let task_signature = self.generate_task_signature(task, schema.url.as_str());
        let script = GeneratedScript {
            id: crate::context::flags::random_uuid_text(),
            script_type: options.script_type,
            code: prepared.code,
            language: prepared.language,
            schema_hash: schema.schema_hash.clone(),
            task_signature,
            metadata: ScriptMetadata::default(),
            created_at_millis: crate::context::subagent::utc_now_millis(),
        };
        Ok(
            GenerationResult {
                script,
                tokens_used: 800,
                duration_ms: crate::clock::elapsed_millis(&start),
                validation_passed: prepared.validation_passed,
                validation_errors: prepared.validation_errors,
                warnings: Vec::new(),
            },
        )
    }

    /// The placeholder script for a task on a page with the given numbers of
    /// elements and actions.
    pub fn generate_placeholder_code(
        &self,
        task: &str,
        url: &str,
        element_count: usize,
        action_count: usize,
        options: &GenerationOptions,
    ) -> (r: String)
        ensures
            r@ == placeholder_code(
                task@,
                url@,
                element_count as nat,
                action_count as nat,
                options.script_type,
            ),
    {
        match options.script_type {
            ScriptType::Playwright => {
                let mut s = to_owned(PLAYWRIGHT_HEAD);
                push_str(&mut s, task);
                push_str(&mut s, PLAYWRIGHT_URL);
                push_str(&mut s, url);
                push_str(&mut s, PLAYWRIGHT_GOTO);
                push_str(&mut s, url);
                push_str(&mut s, PLAYWRIGHT_ELEMENTS);
                push_decimal(&mut s, element_count as u64);
                push_str(&mut s, PLAYWRIGHT_ACTIONS);
                push_decimal(&mut s, action_count as u64);
                push_str(&mut s, PLAYWRIGHT_TAIL);
                s
            },
            ScriptType::Selenium => {
                let mut s = to_owned(SELENIUM_HEAD);
                push_str(&mut s, task);
                push_str(&mut s, SELENIUM_URL);
                push_str(&mut s, url);
                push_str(&mut s, SELENIUM_GET);
                push_str(&mut s, url);
                push_str(&mut s, SELENIUM_ELEMENTS);
                push_decimal(&mut s, element_count as u64);
                push_str(&mut s, SELENIUM_ACTIONS);
                push_decimal(&mut s, action_count as u64);
                push_str(&mut s, SELENIUM_TAIL);
                s
            },
            _ => {
                let mut s = to_owned("// Placeholder script for task: ");
                push_str(&mut s, task);
                s
            },
        }
    }

    /// A page schema must have a URL.
    pub fn validate_schema(&self, url: &str) -> (r: Result<(), GeneratorError>)
        ensures
            url@.len() == 0 ==> (r matches Err(GeneratorError::InvalidSchema(m)) && m@
                == "Schema has no URL"@),
            url@.len() > 0 ==> r is Ok,
    {
        let c = chars_of(url);
        if c.len() == 0 {
            return Err(GeneratorError::InvalidSchema(to_owned("Schema has no URL")));
        }
        Ok(())
    }

    /// The prompt asking the model for a script, given the page schema as JSON.
    pub fn build_generation_prompt(
        &self,
        task: &str,
        schema_json: &str,
        options: &GenerationOptions,
    ) -> (r: String)
        ensures
            r@ == generation_prompt(task@, schema_json@, *options),
    {
        let name = match options.script_type {
            ScriptType::Playwright => "Playwright (JavaScript/TypeScript)",
            ScriptType::Selenium => "Selenium (Python)",
            ScriptType::Puppeteer => "Puppeteer (JavaScript)",
            ScriptType::RestApi => "REST API calls (Python requests)",
            ScriptType::GraphQl => "GraphQL (Python)",
            ScriptType::Native => "Native automation",
        };
        let mut prompt = to_owned("Generate a ");
        push_str(&mut prompt, name);
        push_str(&mut prompt, " script for the following task:\n\n## Task\n");
        push_str(&mut prompt, task);
        push_str(&mut prompt, "\n\n## Page Schema\n");
        push_str(&mut prompt, schema_json);
        push_str(&mut prompt, "\n\n## Requirements\n");
        let ghost p0 = prompt@;
        if options.include_retry {
            push_str(&mut prompt, "- Include retry logic with max ");
            push_decimal(&mut prompt, options.max_retries as u64);
            push_str(&mut prompt, " retries\n");
        }
        let ghost p1 = prompt@;
        if options.handle_pagination {
            push_str(&mut prompt, "- Handle pagination if present\n");
        }
        let ghost p2 = prompt@;
        if options.include_error_handling {
            push_str(&mut prompt, "- Include comprehensive error handling\n");
        }
        let ghost p3 = prompt@;
        if options.include_logging {
            push_str(&mut prompt, "- Add logging for debugging\n");
        }
        let ghost p4 = prompt@;
        push_str(&mut prompt, "- Operation timeout: ");
        push_decimal(&mut prompt, options.operation_timeout_ms);
        push_str(&mut prompt, "ms\n");
        push_str(&mut prompt, "\n## Output\nProvide only the script code, no explanations.");
        let ghost p5 = prompt@;
        if let Some(template) = &options.template {
            push_str(&mut prompt, "\n\n## Template\n");
            push_str(&mut prompt, template.as_str());
        }
        proof {
            reveal_strlit("");
            assert(p1 =~= p0 + (if options.include_retry {
                "- Include retry logic with max "@ + decimal(options.max_retries as nat)
                    + " retries\n"@
            } else {
                ""@
            }));
            assert(p2 =~= p1 + (if options.handle_pagination {
                "- Handle pagination if present\n"@
            } else {
                ""@
            }));
            assert(p3 =~= p2 + (if options.include_error_handling {
                "- Include comprehensive error handling\n"@
            } else {
                ""@
            }));
            assert(p4 =~= p3 + (if options.include_logging {
                "- Add logging for debugging\n"@
            } else {
                ""@
            }));
            assert(prompt@ =~= p5 + match options.template {
                Some(t) => "\n\n## Template\n"@ + t@,
                None => ""@,
            });
        }
        prompt
    }

    /// The code carried by a model answer: the first block fenced with a
    /// marker of the script's language, else the first fenced block, else the
    /// whole answer, trimmed.
    pub fn extract_code(&self, content: &str, script_type: ScriptType) -> (r: String)
        ensures
            r@ == extracted_code(content@, script_type),
    {
        let c = chars_of(content);
        let markers: Vec<&str> = match script_type {
            ScriptType::Playwright | ScriptType::Puppeteer => vec![
                "```javascript",
                "```typescript",
                "```js",
                "```ts",
            ],
            ScriptType::Selenium | ScriptType::RestApi | ScriptType::GraphQl => vec![
                "```python",
                "```py",
            ],
            ScriptType::Native => vec!["```"],
        };
        proof {
            assert(Seq::new(markers@.len(), |i: int| markers@[i]@) =~= fence_markers(
                script_type,
            ));
        }
        if let Some(b) = first_block(&c, &markers) {
            return b;
        }
        if let Some(b) = generic_block_exec(&c) {
            return b;
        }
        trim_string(content)
    }

    /// Give a script the comment header its language expects.
    pub fn post_process_code(&self, code: &str, options: &GenerationOptions) -> (r: String)
        ensures
            r@ == processed_code(code@, options.script_type),
    {
        match options.script_type {
            ScriptType::Playwright | ScriptType::Puppeteer => {
                if !str_starts_with(code, "//") && !str_starts_with(code, "const")
                    && !str_starts_with(code, "import") {
                    let mut s = to_owned("// Auto-generated automation script\n");
                    push_str(&mut s, code);
                    s
                } else {
                    to_owned(code)
                }
            },
            ScriptType::Selenium | ScriptType::RestApi | ScriptType::GraphQl => {
                if !str_starts_with(code, "#") && !str_starts_with(code, "import")
                    && !str_starts_with(code, "from") {
                    let mut s = to_owned("# Auto-generated automation script\n");
                    push_str(&mut s, code);
                    s
                } else {
                    to_owned(code)
                }
            },
            ScriptType::Native => to_owned(code),
        }
    }

    /// Check that a script uses the API of its type.
    pub fn validate_script(&self, code: &str, script_type: ScriptType) -> (r: (bool, Vec<String>))
        ensures
            string_views(r.1@) == script_problems(code@, script_type),
            r.0 == (r.1@.len() == 0),
    {
        let mut errors: Vec<String> = Vec::new();
        match script_type {
            ScriptType::Playwright => {
                if !str_contains(code, "page.") && !str_contains(code, "browser") && !str_contains(
                    code,
                    "chromium",
                ) {
                    errors.push(to_owned("Script doesn't appear to use Playwright API"));
                }
            },
            ScriptType::Selenium => {
                if !str_contains(code, "driver") && !str_contains(code, "webdriver") {
                    errors.push(to_owned("Script doesn't appear to use Selenium API"));
                }
            },
            ScriptType::RestApi => {
                if !str_contains(code, "requests") && !str_contains(code, "fetch")
                    && !str_contains(code, "http") {
                    errors.push(to_owned("Script doesn't appear to make HTTP requests"));
                }
            },
            _ => {},
        }
        proof {
            assert(string_views(errors@) =~= script_problems(code@, script_type));
        }
        let ok = errors.len() == 0;
        (ok, errors)
    }

    /// The language a script type is written in.
    pub fn get_language(&self, script_type: ScriptType) -> (r: String)
        ensures
            r@ == language_of(script_type),
    {
        match script_type {
            ScriptType::Playwright | ScriptType::Puppeteer => to_owned("javascript"),
            ScriptType::Selenium | ScriptType::RestApi | ScriptType::GraphQl => to_owned("python"),
            ScriptType::Native => to_owned("shell"),
        }
    }
}

/// The block after the first occurrence of `m`, when it is closed.
fn block_after_exec(c: &Vec<char>, m: &str) -> (r: Option<String>)
    ensures
        match r {
            Some(b) => block_after(c@, m@) == Some(b@),
            None => block_after(c@, m@) is None,
        },
{
    let mc = chars_of(m);
    let fence = chars_of("```");
    match find_chars(c.as_slice(), mc.as_slice(), 0) {
        Some(start) => {
            proof {
                crate::automation::explorer::lemma_find_bounds(c@, m@, 0);
            }
            let n = c.len();
            let cs = start + mc.len();
            match find_chars(c.as_slice(), fence.as_slice(), cs) {
                Some(e) => {
                    proof {
                        lemma_find_shift(c@, "```"@, cs as int, 0);
                        crate::automation::explorer::lemma_find_bounds(c@, "```"@, cs as int);
                    }
                    Some(trimmed_range(c.as_slice(), cs, e))
                },
                None => {
                    proof {
                        lemma_find_shift(c@, "```"@, cs as int, 0);
                    }
                    None
                },
            }
        },
        None => None,
    }
}

/// Searching a suffix is searching the whole from the suffix's start.
pub proof fn lemma_find_shift(c: Seq<char>, n: Seq<char>, k: int, from: int)
    requires
        0 <= k <= c.len(),
        0 <= from,
    ensures
        match find_from(c.skip(k), n, from) {
            Some(i) => find_from(c, n, k + from) == Some(k + i),
            None => find_from(c, n, k + from) is None,
        },
    decreases c.len() + 1 - (k + from),
{
    if from + n.len() <= c.len() - k {
        assert(c.skip(k).subrange(from, from + n.len()) =~= c.subrange(k + from, k + from + n.len()));
        lemma_find_shift(c, n, k, from + 1);
    }
}

/// The block of the first marker, in order, that has a closed block.
fn first_block(c: &Vec<char>, markers: &Vec<&str>) -> (r: Option<String>)
    ensures
        match r {
            Some(b) => first_marked_block(c@, Seq::new(markers@.len(), |i: int| markers@[i]@))
                == Some(b@),
            None => first_marked_block(c@, Seq::new(markers@.len(), |i: int| markers@[i]@)) is None,
        },
{
    let ghost ms = Seq::new(markers@.len(), |i: int| markers@[i]@);
    proof {
        assert(ms.skip(0) =~= ms);
    }
    let mut i: usize = 0;
    while i < markers.len()
        invariant
            0 <= i <= markers@.len(),
            ms == Seq::new(markers@.len(), |i: int| markers@[i]@),
            first_marked_block(c@, ms) == first_marked_block(c@, ms.skip(i as int)),
        decreases markers.len() - i,
    {
        proof {
            assert(ms.skip(i as int).drop_first() =~= ms.skip(i + 1));
            assert(ms.skip(i as int)[0] == markers@[i as int]@);
        }
        if let Some(b) = block_after_exec(c, markers[i]) {
            return Some(b);
        }
        i = i + 1;
    }
    None
}

/// The first fenced block of any language.
fn generic_block_exec(c: &Vec<char>) -> (r: Option<String>)
    ensures
        match r {
            Some(b) => generic_block(c@) == Some(b@),
            None => generic_block(c@) is None,
        },
{
    let fence = chars_of("```");
    let nl = chars_of("\n");
    proof {
        reveal_strlit("```");
        reveal_strlit("\n");
    }
    let len = c.len();
    match find_chars(c.as_slice(), fence.as_slice(), 0) {
        Some(start) => {
            proof {
                crate::automation::explorer::lemma_find_bounds(c@, "```"@, 0);
            }
            let cs = start + 3;
            proof {
                lemma_find_shift(c@, "\n"@, cs as int, 0);
            }
            let actual = match find_chars(c.as_slice(), nl.as_slice(), cs) {
                Some(n) => {
                    proof {
                        crate::automation::explorer::lemma_find_bounds(c@, "\n"@, cs as int);
                    }
                    n + 1
                },
                None => cs,
            };
            proof {
                lemma_find_shift(c@, "```"@, actual as int, 0);
            }
            match find_chars(c.as_slice(), fence.as_slice(), actual) {
                Some(e) => {
                    proof {
                        crate::automation::explorer::lemma_find_bounds(c@, "```"@, actual as int);
                    }
                    Some(trimmed_range(c.as_slice(), actual, e))
                },
                None => None,
            }
        },
        None => None,
    }
}

/// Builder for a code generator.
pub struct CodeGeneratorBuilder<L> {
    llm_router: Option<L>,
    config: CodeGeneratorConfig,
}

impl<L> CodeGeneratorBuilder<L> {
    /// The language-model router set so far.
    pub closed spec fn router_spec(&self) -> Option<L> {
        self.llm_router
    }

    /// The configuration so far.
    pub closed spec fn config_spec(&self) -> CodeGeneratorConfig {
        self.config
    }

    /// Create a builder with no router and the default configuration.
    pub fn new() -> (r: Self)
        ensures
            r.router_spec() is None,
            r.config_spec().model@ == DEFAULT_MODEL@,
            r.config_spec().max_tokens == 2048,
            r.config_spec().system_prompt@ == GENERATOR_SYSTEM_PROMPT@,
    {
        CodeGeneratorBuilder { llm_router: None, config: CodeGeneratorConfig::default() }
    }

    /// Set the language-model router.
    pub fn llm_router(self, router: L) -> (r: Self)
        ensures
            r.router_spec() == Some(router),
            r.config_spec() == self.config_spec(),
    {
        let mut b = self;
        b.llm_router = Some(router);
        b
    }

    /// Set the model.
    pub fn model(self, model: &str) -> (r: Self)
        ensures
            r.config_spec().model@ == model@,
            r.config_spec().max_tokens == self.config_spec().max_tokens,
            r.config_spec().system_prompt == self.config_spec().system_prompt,
            r.router_spec() == self.router_spec(),
    {
        let mut b = self;
        b.config.model = to_owned(model);
        b
    }

    /// Set the token limit.
    pub fn max_tokens(self, tokens: u32) -> (r: Self)
        ensures
            r.config_spec().max_tokens == tokens,
            r.config_spec().model == self.config_spec().model,
            r.config_spec().system_prompt == self.config_spec().system_prompt,
            r.router_spec() == self.router_spec(),
    {
        let mut b = self;
        b.config.max_tokens = tokens;
        b
    }

    /// Set the system prompt.
    pub fn system_prompt(self, prompt: &str) -> (r: Self)
        ensures
            r.config_spec().system_prompt@ == prompt@,
            r.config_spec().model == self.config_spec().model,
            r.config_spec().max_tokens == self.config_spec().max_tokens,
            r.router_spec() == self.router_spec(),
    {
        let mut b = self;
        b.config.system_prompt = to_owned(prompt);
        b
    }

    /// Build the generator: the router is needed.
    pub fn build(self) -> (r: Result<CodeGenerator<L>, GeneratorError>)
        ensures
            match self.router_spec() {
                Some(l) => r matches Ok(g) && g.router_spec() == l && g.config_spec()
                    == self.config_spec(),
                None => r matches Err(GeneratorError::GenerationFailed(m)) && m@
                    == "LLM router not provided"@,
            },
    {
        match self.llm_router {
            None => Err(GeneratorError::GenerationFailed(to_owned("LLM router not provided"))),
            Some(llm_router) => Ok(CodeGenerator { llm_router, config: self.config }),
        }
    }
}

impl<L> Default for CodeGeneratorBuilder<L> {
    fn default() -> (r: Self)
        ensures
            r.router_spec() is None,
            r.config_spec().model@ == DEFAULT_MODEL@,
            r.config_spec().max_tokens == 2048,
            r.config_spec().system_prompt@ == GENERATOR_SYSTEM_PROMPT@,
    {
        Self::new()
    }
}

/// Pre-built script templates for common scenarios.
pub struct ScriptTemplates;

impl ScriptTemplates {
    /// Playwright template for data entry.
    pub fn playwright_data_entry() -> (r: String)
        ensures
            r@ == PLAYWRIGHT_DATA_ENTRY_TEMPLATE@,
    {
        to_owned(PLAYWRIGHT_DATA_ENTRY_TEMPLATE)
    }

    /// Selenium template for data entry.
    pub fn selenium_data_entry() -> (r: String)
        ensures
            r@ == SELENIUM_DATA_ENTRY_TEMPLATE@,
    {
        to_owned(SELENIUM_DATA_ENTRY_TEMPLATE)
    }

    /// REST API template.
    pub fn rest_api() -> (r: String)
        ensures
            r@ == REST_API_TEMPLATE@,
    {
        to_owned(REST_API_TEMPLATE)
    }
}

} // verus!
