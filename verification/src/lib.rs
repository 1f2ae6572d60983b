//! Classification of unresolved references in JavaScript and TypeScript
//! sources.
//!
//! A semantic resolver (an external collaborator) hands this library the
//! references it could not bind to any declaration.  The library decides,
//! for each one, whether it is legitimate — a host or language global, a
//! JSX factory under the classic runtime, an allow-listed name, or a
//! syntactic exemption such as `arguments` inside an ordinary function —
//! or whether it should be reported as undeclared.  Flagged references are
//! rendered into diagnostics by the emitter.

pub mod classify;
pub mod diagnostic;
pub mod globals;
pub mod model;
pub mod text;
