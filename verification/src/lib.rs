//! Converts a Markdown document to a PDF file: the Markdown text is rendered
//! to an HTML fragment, wrapped into a full document together with a CSS
//! theme, written to a scratch file, and handed to an external HTML-to-PDF
//! renderer. This crate holds the decision logic of that pipeline; the caller
//! performs the filesystem and subprocess work and reports each outcome back.

pub mod app_state;
pub mod outcome;
pub mod paths;
pub mod pipeline;
pub mod render;
pub mod theme;
