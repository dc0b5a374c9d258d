//! Decision logic of an instanced OpenGL text renderer.
//!
//! Glyphs are rasterized into one atlas texture, packed into one vertex
//! record per glyph and drawn with a single instanced call. This crate holds
//! everything the renderer decides: which driver call comes next, with which
//! arguments, and when a failure is fatal. It never talks to the driver or to
//! the layout engine itself. A host program performs each command on the
//! thread that owns the graphics context and hands the answers back as plain
//! values.
//!
//! - [`codes`]: the numeric codes shared with the driver, and the names of
//!   its error flags.
//! - [`shader`]: reading the driver's report on a compile or a link.
//! - [`atlas`]: the glyph atlas texture and the size it is recreated at.
//! - [`pipeline`]: the vertex record, the attribute layout, and the buffer
//!   that grows but never shrinks.
//! - [`projection`]: the orthographic projection, in exact arithmetic.
//! - [`frame`]: what to do with the layout engine's answer, frame by frame.
//! - [`config`]: picking the framebuffer configuration.
//! - [`decimal`]: numbers as text, for error messages.

pub mod atlas;
pub mod codes;
pub mod config;
pub mod decimal;
pub mod frame;
pub mod pipeline;
pub mod projection;
pub mod shader;
