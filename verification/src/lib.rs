//! A cross-language type-binding generator: given backend type and function
//! declarations annotated with naming, serialization and validation
//! metadata, it emits matching front-end type declarations, runtime
//! validator stubs and callable signatures, and checks boundary values
//! against the declared constraints.
//!
//! The declaration model lives in `model`; `names` applies naming
//! conventions and renames; `analyze` resolves references and rejects
//! external-name collisions; `schema`, `validators` and `signatures` render
//! the three sections of the artifact; `generate` ties them together; and
//! `runtime` interprets the constraints at the boundary where external
//! input first enters the system. `models`, `commands` and `samples` hold
//! the demonstration domain that feeds the generator.

pub mod analyze;
pub mod commands;
pub mod generate;
pub mod model;
pub mod models;
pub mod names;
pub mod runtime;
pub mod samples;
pub mod schema;
pub mod signatures;
pub mod text;
pub mod validators;
