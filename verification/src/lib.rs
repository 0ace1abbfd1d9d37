//! A desktop-automation service core: a line-delimited JSON-RPC
//! dispatcher over a fixed registry of screen-capture, mouse and
//! keyboard tools.
//!
//! The library covers everything between the transport and the OS
//! backends: decoding-independent value handling, request dispatch,
//! per-tool argument extraction and defaulting, the ordered input-event
//! plans that drags, clicks and typed text must emit, the capture
//! pipeline's decisions, and the rendering of protocol responses.
//! Each public function carries a contract pinning its behaviour; the
//! OS backends (event injection, screen query) and the image and
//! base64 codecs stand behind narrow trusted interfaces.

pub mod capture;
pub mod descriptors;
pub mod json;
pub mod keymap;
pub mod numfmt;
pub mod plan;
pub mod protocol;
pub mod render;
pub mod strutil;
pub mod tools;
