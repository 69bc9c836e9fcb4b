//! The preamble put before model-written code so that it can call the
//! registered tools through the HTTP proxy bridge.
use vstd::prelude::*;

use crate::text::{contains, decimal, occurs_at, push_decimal, push_str, str_eq, to_owned};

verus! {

/// A fixed piece of the Python tool preamble.
pub const PYTHON_PREAMBLE_HEAD: &'static str = "# === Canal Tool SDK (auto-generated) ===\nimport json\nimport urllib.request\nimport urllib.error\nimport sys\n\nclass _ToolProxy:\n    \"\"\"Proxy for calling registered tools via the HTTP bridge.\"\"\"\n\n    def __init__(self, base_url):\n        self._url = base_url\n        self._call_count = 0\n\n    def call(self, tool_name, **kwargs):\n        \"\"\"Call any registered tool by name.\n\n        Args:\n            tool_name: Name of the tool (e.g., \"Read\", \"Bash\", \"Glob\")\n            **kwargs: Tool-specific arguments\n\n        Returns:\n            Tool result as a Python object (dict, list, string, etc.)\n\n        Raises:\n            RuntimeError: If the tool call fails\n        \"\"\"\n        self._call_count += 1\n        data = json.dumps({\"tool_name\": tool_name, \"arguments\": kwargs})\n        req = urllib.request.Request(\n            f\"{self._url}/call_tool\",\n            data.encode(\"utf-8\"),\n            headers={\"Content-Type\": \"application/json\"},\n            method=\"POST\",\n        )\n        try:\n            with urllib.request.urlopen(req, timeout=120) as resp:\n                result = json.loads(resp.read())\n                if result.get(\"error\"):\n                    raise RuntimeError(f\"Tool {tool_name} failed: {result['error']}\")\n                return result.get(\"result\")\n        except urllib.error.URLError as e:\n            raise RuntimeError(f\"Tool {tool_name} connection error: {e}\")\n        except urllib.error.HTTPError as e:\n            body = e.read().decode(\"utf-8\", errors=\"replace\")\n            raise RuntimeError(f\"Tool {tool_name} HTTP error {e.code}: {body}\")\n\n    # === Convenience methods ===\n";

/// A fixed piece of the Python tool preamble.
pub const PYTHON_PREAMBLE_URL: &'static str = "\n\ntools = _ToolProxy(\"http://host.docker.internal:";

/// A fixed piece of the Python tool preamble.
pub const PYTHON_PREAMBLE_CONTEXT: &'static str = "\")\ncontext = ";

/// A fixed piece of the Python tool preamble.
pub const PYTHON_PREAMBLE_TAIL: &'static str = "\n\n# === End Canal Tool SDK ===\n\n";

/// A fixed piece of the JavaScript tool preamble.
pub const JS_PREAMBLE_HEAD: &'static str = "// === Canal Tool SDK (auto-generated) ===\nconst http = require('http');\n\nclass _ToolProxy {\n    constructor(baseUrl) {\n        this._url = baseUrl;\n        this._callCount = 0;\n    }\n\n    async call(toolName, kwargs = {}) {\n        this._callCount++;\n        const data = JSON.stringify({ tool_name: toolName, arguments: kwargs });\n\n        return new Promise((resolve, reject) => {\n            const url = new URL(`${this._url}/call_tool`);\n            const options = {\n                hostname: url.hostname,\n                port: url.port,\n                path: url.pathname,\n                method: 'POST',\n                headers: {\n                    'Content-Type': 'application/json',\n                    'Content-Length': Buffer.byteLength(data),\n                },\n                timeout: 120000,\n            };\n\n            const req = http.request(options, (res) => {\n                let body = '';\n                res.on('data', (chunk) => body += chunk);\n                res.on('end', () => {\n                    try {\n                        const result = JSON.parse(body);\n                        if (result.error) {\n                            reject(new Error(`Tool ${toolName} failed: ${result.error}`));\n                        } else {\n                            resolve(result.result);\n                        }\n                    } catch (e) {\n                        reject(new Error(`Tool ${toolName} parse error: ${e.message}`));\n                    }\n                });\n            });\n\n            req.on('error', (e) => reject(new Error(`Tool ${toolName} error: ${e.message}`)));\n            req.on('timeout', () => {\n                req.destroy();\n                reject(new Error(`Tool ${toolName} timed out`));\n            });\n\n            req.write(data);\n            req.end();\n        });\n    }\n\n    // === Convenience methods ===\n";

/// A fixed piece of the JavaScript tool preamble.
pub const JS_PREAMBLE_URL: &'static str = "\n}\n\nconst tools = new _ToolProxy('http://host.docker.internal:";

/// A fixed piece of the JavaScript tool preamble.
pub const JS_PREAMBLE_CONTEXT: &'static str = "');\nconst context = ";

/// A fixed piece of the JavaScript tool preamble.
pub const JS_PREAMBLE_TAIL: &'static str = ";\n\n// === End Canal Tool SDK ===\n\n";

/// The Python convenience methods of the tool proxy.
pub const PYTHON_TOOL_METHODS: &'static str = "    def read(self, path):\n        \"\"\"Read a file and return its content.\"\"\"\n        return self.call(\"Read\", file_path=path)\n\n    def write(self, path, content):\n        \"\"\"Write content to a file.\"\"\"\n        return self.call(\"Write\", file_path=path, content=content)\n\n    def edit(self, path, old_string, new_string):\n        \"\"\"Edit a file by replacing old_string with new_string.\"\"\"\n        return self.call(\"Edit\", file_path=path, old_string=old_string, new_string=new_string)\n\n    def bash(self, cmd, timeout=None):\n        \"\"\"Execute a bash command.\"\"\"\n        kwargs = {\"command\": cmd}\n        if timeout is not None:\n            kwargs[\"timeout\"] = timeout\n        return self.call(\"Bash\", **kwargs)\n\n    def glob(self, pattern, path=None):\n        \"\"\"Find files matching a glob pattern.\"\"\"\n        kwargs = {\"pattern\": pattern}\n        if path is not None:\n            kwargs[\"path\"] = path\n        return self.call(\"Glob\", **kwargs)\n\n    def grep(self, pattern, path=None, glob_filter=None):\n        \"\"\"Search file contents with regex.\"\"\"\n        kwargs = {\"pattern\": pattern}\n        if path is not None:\n            kwargs[\"path\"] = path\n        if glob_filter is not None:\n            kwargs[\"glob\"] = glob_filter\n        return self.call(\"Grep\", **kwargs)\n\n    def mcp(self, server, tool, **kwargs):\n        \"\"\"Call an MCP tool (namespace_toolname format).\"\"\"\n        return self.call(f\"{server}_{tool}\", **kwargs)";

/// The JavaScript convenience methods of the tool proxy.
pub const JS_TOOL_METHODS: &'static str = "    async read(path) {\n        return this.call('Read', { file_path: path });\n    }\n\n    async write(path, content) {\n        return this.call('Write', { file_path: path, content });\n    }\n\n    async edit(path, oldString, newString) {\n        return this.call('Edit', { file_path: path, old_string: oldString, new_string: newString });\n    }\n\n    async bash(cmd, timeout) {\n        const kwargs = { command: cmd };\n        if (timeout !== undefined) kwargs.timeout = timeout;\n        return this.call('Bash', kwargs);\n    }\n\n    async glob(pattern, path) {\n        const kwargs = { pattern };\n        if (path !== undefined) kwargs.path = path;\n        return this.call('Glob', kwargs);\n    }\n\n    async grep(pattern, path, globFilter) {\n        const kwargs = { pattern };\n        if (path !== undefined) kwargs.path = path;\n        if (globFilter !== undefined) kwargs.glob = globFilter;\n        return this.call('Grep', kwargs);\n    }\n\n    async mcp(server, tool, kwargs = {}) {\n        return this.call(`${server}_${tool}`, kwargs);\n    }";


/// What is known of a registered tool where a preamble is written: its name.
#[derive(Debug, Clone)]
pub struct ToolMetadata {
    /// The tool's name.
    pub name: String,
}

/// The Python preamble for a proxy on `port`, with the given context JSON.
pub open spec fn python_preamble(port: u16, context_json: Seq<char>) -> Seq<char> {
    PYTHON_PREAMBLE_HEAD@ + PYTHON_TOOL_METHODS@ + PYTHON_PREAMBLE_URL@ + decimal(port as nat)
        + PYTHON_PREAMBLE_CONTEXT@ + context_json + PYTHON_PREAMBLE_TAIL@
}

/// The Python preamble defines the tool proxy class with its `read`, `bash`
/// and `grep` helpers, points `tools` at the proxy on the given port, and
/// binds `context` to the given JSON.
pub proof fn lemma_python_preamble_parts(port: u16, context_json: Seq<char>)
    ensures
        contains(python_preamble(port, context_json), "class _ToolProxy"@),
        contains(python_preamble(port, context_json), "def read(self, path)"@),
        contains(python_preamble(port, context_json), "def bash(self, cmd"@),
        contains(python_preamble(port, context_json), "def grep(self, pattern"@),
        contains(
            python_preamble(port, context_json),
            "tools = _ToolProxy(\"http://host.docker.internal:"@ + decimal(port as nat) + "\")"@,
        ),
        contains(python_preamble(port, context_json), "context = "@ + context_json),
{
    let h = PYTHON_PREAMBLE_HEAD@;
    let m = PYTHON_TOOL_METHODS@;
    let u = PYTHON_PREAMBLE_URL@;
    let d = decimal(port as nat);
    let c = PYTHON_PREAMBLE_CONTEXT@;
    let t = PYTHON_PREAMBLE_TAIL@;
    let w = python_preamble(port, context_json);
    reveal_strlit("# === Canal Tool SDK (auto-generated) ===\nimport json\nimport urllib.request\nimport urllib.error\nimport sys\n\nclass _ToolProxy:\n    \"\"\"Proxy for calling registered tools via the HTTP bridge.\"\"\"\n\n    def __init__(self, base_url):\n        self._url = base_url\n        self._call_count = 0\n\n    def call(self, tool_name, **kwargs):\n        \"\"\"Call any registered tool by name.\n\n        Args:\n            tool_name: Name of the tool (e.g., \"Read\", \"Bash\", \"Glob\")\n            **kwargs: Tool-specific arguments\n\n        Returns:\n            Tool result as a Python object (dict, list, string, etc.)\n\n        Raises:\n            RuntimeError: If the tool call fails\n        \"\"\"\n        self._call_count += 1\n        data = json.dumps({\"tool_name\": tool_name, \"arguments\": kwargs})\n        req = urllib.request.Request(\n            f\"{self._url}/call_tool\",\n            data.encode(\"utf-8\"),\n            headers={\"Content-Type\": \"application/json\"},\n            method=\"POST\",\n        )\n        try:\n            with urllib.request.urlopen(req, timeout=120) as resp:\n                result = json.loads(resp.read())\n                if result.get(\"error\"):\n                    raise RuntimeError(f\"Tool {tool_name} failed: {result['error']}\")\n                return result.get(\"result\")\n        except urllib.error.URLError as e:\n            raise RuntimeError(f\"Tool {tool_name} connection error: {e}\")\n        except urllib.error.HTTPError as e:\n            body = e.read().decode(\"utf-8\", errors=\"replace\")\n            raise RuntimeError(f\"Tool {tool_name} HTTP error {e.code}: {body}\")\n\n    # === Convenience methods ===\n");
    reveal_strlit("    def read(self, path):\n        \"\"\"Read a file and return its content.\"\"\"\n        return self.call(\"Read\", file_path=path)\n\n    def write(self, path, content):\n        \"\"\"Write content to a file.\"\"\"\n        return self.call(\"Write\", file_path=path, content=content)\n\n    def edit(self, path, old_string, new_string):\n        \"\"\"Edit a file by replacing old_string with new_string.\"\"\"\n        return self.call(\"Edit\", file_path=path, old_string=old_string, new_string=new_string)\n\n    def bash(self, cmd, timeout=None):\n        \"\"\"Execute a bash command.\"\"\"\n        kwargs = {\"command\": cmd}\n        if timeout is not None:\n            kwargs[\"timeout\"] = timeout\n        return self.call(\"Bash\", **kwargs)\n\n    def glob(self, pattern, path=None):\n        \"\"\"Find files matching a glob pattern.\"\"\"\n        kwargs = {\"pattern\": pattern}\n        if path is not None:\n            kwargs[\"path\"] = path\n        return self.call(\"Glob\", **kwargs)\n\n    def grep(self, pattern, path=None, glob_filter=None):\n        \"\"\"Search file contents with regex.\"\"\"\n        kwargs = {\"pattern\": pattern}\n        if path is not None:\n            kwargs[\"path\"] = path\n        if glob_filter is not None:\n            kwargs[\"glob\"] = glob_filter\n        return self.call(\"Grep\", **kwargs)\n\n    def mcp(self, server, tool, **kwargs):\n        \"\"\"Call an MCP tool (namespace_toolname format).\"\"\"\n        return self.call(f\"{server}_{tool}\", **kwargs)");
    reveal_strlit("\n\ntools = _ToolProxy(\"http://host.docker.internal:");
    reveal_strlit("\")\ncontext = ");
    reveal_strlit("class _ToolProxy");
    reveal_strlit("def read(self, path)");
    reveal_strlit("def bash(self, cmd");
    reveal_strlit("def grep(self, pattern");
    reveal_strlit("tools = _ToolProxy(\"http://host.docker.internal:");
    reveal_strlit("\")");
    reveal_strlit("context = ");
    assert(h.len() == 1615 && m.len() == 1428 && u.len() == 50);
    let hm = h + m;
    assert(w == hm + u + d + c + context_json + t);
    let n1 = "class _ToolProxy"@;
    assert(w.subrange(108int, 108int + n1.len()) =~= n1);
    assert(occurs_at(w, n1, 108int));
    let n2 = "def read(self, path)"@;
    assert(w.subrange((1615int + 4), (1615int + 4) + n2.len()) =~= n2);
    assert(occurs_at(w, n2, (1615int + 4)));
    let n3 = "def bash(self, cmd"@;
    assert(w.subrange((1615int + 486), (1615int + 486) + n3.len()) =~= n3);
    assert(occurs_at(w, n3, (1615int + 486)));
    let n4 = "def grep(self, pattern"@;
    assert(w.subrange((1615int + 948), (1615int + 948) + n4.len()) =~= n4);
    assert(occurs_at(w, n4, (1615int + 948)));
    let n5 = "tools = _ToolProxy(\"http://host.docker.internal:"@ + d + "\")"@;
    let i5: int = 1615int + 1428 + 2;
    assert(w.subrange(i5, i5 + n5.len()) =~= n5);
    assert(occurs_at(w, n5, i5));
    let n6 = "context = "@ + context_json;
    let i6: int = 1615int + 1428 + 50 + d.len() + 3;
    assert(w.subrange(i6, i6 + n6.len()) =~= n6);
    assert(occurs_at(w, n6, i6));
}

/// The JavaScript preamble for a proxy on `port`, with the given context JSON.
pub open spec fn javascript_preamble(port: u16, context_json: Seq<char>) -> Seq<char> {
    JS_PREAMBLE_HEAD@ + JS_TOOL_METHODS@ + JS_PREAMBLE_URL@ + decimal(port as nat)
        + JS_PREAMBLE_CONTEXT@ + context_json + JS_PREAMBLE_TAIL@
}

/// Writes the SDK preamble that gives sandboxed code access to the tools.
pub struct ToolCodeGenerator;

impl ToolCodeGenerator {
    /// The Python preamble: a `tools` proxy object and a `context` dict.
    pub fn generate_python_preamble(
        port: u16,
        context_json: &str,
        available_tools: &[ToolMetadata],
    ) -> (r: String)
        ensures
            r@ == python_preamble(port, context_json@),
    {
        let tool_methods = Self::generate_python_tool_methods(available_tools);
        let mut s = to_owned(PYTHON_PREAMBLE_HEAD);
        push_str(&mut s, tool_methods.as_str());
        push_str(&mut s, PYTHON_PREAMBLE_URL);
        push_decimal(&mut s, port as u64);
        push_str(&mut s, PYTHON_PREAMBLE_CONTEXT);
        push_str(&mut s, context_json);
        push_str(&mut s, PYTHON_PREAMBLE_TAIL);
        s
    }

    /// The JavaScript preamble: a `tools` proxy object and a `context` object.
    pub fn generate_javascript_preamble(
        port: u16,
        context_json: &str,
        available_tools: &[ToolMetadata],
    ) -> (r: String)
        ensures
            r@ == javascript_preamble(port, context_json@),
    {
        let tool_methods = Self::generate_js_tool_methods(available_tools);
        let mut s = to_owned(JS_PREAMBLE_HEAD);
        push_str(&mut s, tool_methods.as_str());
        push_str(&mut s, JS_PREAMBLE_URL);
        push_decimal(&mut s, port as u64);
        push_str(&mut s, JS_PREAMBLE_CONTEXT);
        push_str(&mut s, context_json);
        push_str(&mut s, JS_PREAMBLE_TAIL);
        s
    }

    /// The preamble for `python` or `javascript`; any other language is refused.
    pub fn generate_preamble(
        language: &str,
        port: u16,
        context_json: &str,
        available_tools: &[ToolMetadata],
    ) -> (r: Result<String, String>)
        ensures
            language@ == "python"@ ==> (r matches Ok(p) && p@ == python_preamble(
                port,
                context_json@,
            )),
            language@ == "javascript"@ ==> (r matches Ok(p) && p@ == javascript_preamble(
                port,
                context_json@,
            )),
            language@ != "python"@ && language@ != "javascript"@ ==> (r matches Err(e) && e@
                == "Unsupported language for code orchestration: "@ + language@),
    {
        proof {
            reveal_strlit("python");
            reveal_strlit("javascript");
            assert("python"@.len() != "javascript"@.len());
        }
        if str_eq(language, "python") {
            Ok(Self::generate_python_preamble(port, context_json, available_tools))
        } else if str_eq(language, "javascript") {
            Ok(Self::generate_javascript_preamble(port, context_json, available_tools))
        } else {
            let mut e = to_owned("Unsupported language for code orchestration: ");
            push_str(&mut e, language);
            Err(e)
        }
    }

    /// The Python convenience methods (the same for every tool set).
    fn generate_python_tool_methods(_tools: &[ToolMetadata]) -> (r: String)
        ensures
            r@ == PYTHON_TOOL_METHODS@,
    {
        to_owned(PYTHON_TOOL_METHODS)
    }

    /// The JavaScript convenience methods (the same for every tool set).
    fn generate_js_tool_methods(_tools: &[ToolMetadata]) -> (r: String)
        ensures
            r@ == JS_TOOL_METHODS@,
    {
        to_owned(JS_TOOL_METHODS)
    }
}

} // verus!
