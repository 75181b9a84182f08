//! Renders an e-mail address as a bitmap: the colour grammar, the font
//! request, the archive extraction, the canvas geometry and the sequencing of
//! the stages, each with a verified contract.

pub mod text;
pub mod bytes;
pub mod color;
pub mod archive;
pub mod fetch;
pub mod canvas;
pub mod render;
pub mod config;
pub mod pipeline;
