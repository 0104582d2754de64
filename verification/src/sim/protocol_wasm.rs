//! WASM plugin protocol host descriptor (the plugin runtime is an optional feature
//! that is not built; such a protocol always stays).

use vstd::prelude::*;

verus! {

/// A handoff protocol backed by a WASM plugin loaded at runtime.
#[derive(Debug, Clone, Default)]
pub struct WasmProtocol {
    /// Path to the `.wasm` plugin file.
    pub plugin_path: String,
    /// Display name sourced from the plugin metadata.
    pub plugin_name: String,
}

impl WasmProtocol {
    /// The plugin's display name.
    pub fn name(&self) -> (s: &str)
        ensures
            s@ == self.plugin_name@,
    {
        self.plugin_name.as_str()
    }

    /// One-sentence description.
    pub fn description(&self) -> (s: &'static str)
        ensures
            s@ == "WASM plugin (requires wasm-plugins feature)"@,
    {
        "WASM plugin (requires wasm-plugins feature)"
    }
}

} // verus!
