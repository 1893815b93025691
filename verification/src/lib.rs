//! Plugin-side building blocks for a WASM plugin host: a relay that prepares
//! HTTP requests for a host-provided networking capability, and a declarative
//! UI plugin that renders a fixed element tree and answers UI events with
//! update/notification responses, all serialized as JSON text.

pub mod event;
pub mod jsondata;
pub mod manifest;
pub mod relay;
pub mod text;
pub mod ui;
