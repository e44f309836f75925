//! Generation of TypeScript bindings for backend commands and entities.
//!
//! The library works on plain descriptions of exported functions: it checks
//! their shape, resolves each parameter's TypeScript type name, and computes
//! the text of the generated file and the path it goes to, as well as the
//! directory that entity declarations are exported to. Reading source code
//! and writing files are left to the caller.
pub mod descriptor;
pub mod dir;
pub mod emit;
pub mod laws;
pub mod registry;
