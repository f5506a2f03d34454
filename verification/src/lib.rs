//! A diagnostic pipeline over a compiled binary: it parses the binary's
//! container, enumerates the procedures of its external debug-symbol store,
//! derives the constant offset between link-time and runtime addresses from
//! one anchor function observed at runtime, decodes each function's machine
//! code at its corrected address, and renders a per-function listing.

pub mod disasm;
pub mod errors;
pub mod loader;
pub mod pipeline;
pub mod report;
pub mod resolver;
pub mod symbols;
