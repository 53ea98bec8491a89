//! The bundle that the JavaScript build step writes: where its files go and
//! the text put around the built script.
use vstd::prelude::*;
use vstd::string::*;

verus! {

/// What the JavaScript build tool reports back: the built script, the
/// WebAssembly module if any, and a directory of its own to clean up.
#[derive(Debug, Clone)]
pub struct WranglerjsOutput {
    pub wasm: Option<String>,
    pub script: String,
    pub dist_to_clean: Option<String>,
}

/// The built artifact, written under `./worker`.
#[derive(Debug, Clone, Copy, PartialEq, Eq, Structural)]
pub struct Bundle {}

pub open spec fn prologue_spec() -> Seq<char> {
    "\n        const window = this;\n    "@
}

pub open spec fn metadata_spec(has_wasm: bool) -> Seq<char> {
    if has_wasm {
        "\n                {\n                    \"body_part\": \"script\",\n                    \"binding\": {\n                        \"name\": \""@ + "wasmprogram"@ + "\",\n                        \"type\": \"wasm_module\",\n                        \"part\": \""@ + "wasmprogram"@ + "\"\n                    }\n                }\n            "@
    } else {
        "\n                {{\n                    \"body_part\": \"script\"\n                }}\n            "@
    }
}

impl Bundle {
    pub fn new() -> (r: Bundle) {
        Bundle {}
    }

    pub fn metadata_path(&self) -> (r: String)
        ensures
            r@ == "./worker/metadata.json"@,
    {
        "./worker/metadata.json".to_owned()
    }

    pub fn wasm_path(&self) -> (r: String)
        ensures
            r@ == "./worker/module.wasm"@,
    {
        "./worker/module.wasm".to_owned()
    }

    pub fn script_path(&self) -> (r: String)
        ensures
            r@ == "./worker/script.js"@,
    {
        "./worker/script.js".to_owned()
    }

    /// The binding name under which the WebAssembly module is exposed.
    pub fn get_wasm_binding(&self) -> (r: String)
        ensures
            r@ == "wasmprogram"@,
    {
        "wasmprogram".to_owned()
    }

    /// The script file's contents: the prologue, then the built script.
    pub fn script_contents(&self, output: &WranglerjsOutput) -> (r: String)
        ensures
            r@ == prologue_spec() + output.script@,
    {
        let mut s = create_prologue();
        s.append(output.script.as_str());
        s
    }
}

/// Path of the JavaScript build tool, which should be executable.
pub fn executable_path() -> (r: String)
    ensures
        r@ == "./node_modules/.bin/wrangler-js"@,
{
    "./node_modules/.bin/wrangler-js".to_owned()
}

/// Code injected at the top level of the script; provides `window`.
pub fn create_prologue() -> (r: String)
    ensures
        r@ == prologue_spec(),
{
    "\n        const window = this;\n    ".to_owned()
}

/// The metadata describing the script's bindings; `has_wasm` tells whether
/// the bundle holds a WebAssembly module.
pub fn create_metadata(bundle: &Bundle, has_wasm: bool) -> (r: String)
    ensures
        r@ == metadata_spec(has_wasm),
{
    if has_wasm {
        let name = bundle.get_wasm_binding();
        let mut m = "\n                {\n                    \"body_part\": \"script\",\n                    \"binding\": {\n                        \"name\": \"".to_owned();
        m.append(name.as_str());
        m.append("\",\n                        \"type\": \"wasm_module\",\n                        \"part\": \"");
        m.append(name.as_str());
        m.append("\"\n                    }\n                }\n            ");
        m
    } else {
        "\n                {{\n                    \"body_part\": \"script\"\n                }}\n            ".to_owned()
    }
}

} // verus!
