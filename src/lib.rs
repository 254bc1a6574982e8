//! Render-target blitting: copy a source texture into a destination render
//! target, converting pixel format and colour space on the way.
//!
//! The decisions (which shader entry point converts which colour space into
//! which format, which formats the pipeline cache holds, which commands a blit
//! records) are verified against a model of the `wgpu` objects involved. The
//! GPU work is done by `wgpu` behind small trusted wrappers in [`gpu`], which
//! alone tie each object to its model.
pub mod format;
pub mod conversion;
pub mod cache;
pub mod shader;
pub mod gpu;
pub mod fullscreen;
pub mod blitter_new;
pub mod blitter_old;
