//! Code generators for struct definitions: a builder companion and a
//! formatted-output implementation.
//!
//! A struct definition is given as plain values — the struct's name and,
//! per field, the field's name, the flattened shape of its type, and its
//! structured attributes.  The builder generator classifies every field
//! (plain, optional, or list with a per-element setter named by a
//! `builder(each = "...")` attribute) and emits a builder struct with
//! fluent setters and a validated `build` method.  The formatted-output
//! generator emits a `Debug` implementation that renders a field through
//! the format string of its `debug = "..."` attribute, when present.
//! Every generator's output is pinned down, character for character, by
//! its contract.

pub mod builder;
pub mod debug;
pub mod types;
