//! Build orchestration around the `wrangler-js` bundler: the invocation it
//! expects, the decisions taken once it has exited, and the artefacts of a
//! bundle (script, optional wasm module, metadata).
pub mod bundle;
pub mod runner;
pub mod size;
pub mod text;
