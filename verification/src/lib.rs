//! Language Server Protocol types, and the translator that turns the
//! protocol's machine-readable meta-model into target type declarations.
//!
//! The translator works on three models: `schema` holds a meta-model as
//! it is read, `config` the policy of a run, and `target` the
//! declarations that come out. `translate` is the pass itself and `laws`
//! states what holds of every pass. `fingerprint` gives each entity of a
//! meta-model a checksum, `canonical` shows that the bytes behind it tell
//! structures apart, and `report` words the diagnostics of a pass.
//!
//! `lsp` holds the types of the protocol's messages, `uri` the URIs that
//! they carry, and `wire` their JSON forms. `text` holds helpers on texts.

pub mod canonical;
pub mod config;
pub mod fingerprint;
pub mod laws;
pub mod lsp;
pub mod report;
pub mod schema;
pub mod target;
pub mod text;
pub mod translate;
pub mod uri;
pub mod wire;
