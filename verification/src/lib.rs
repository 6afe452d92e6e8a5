//! The decision logic of a GPU rendering backend for a 2D vector graphics
//! canvas: blending, pipeline and bind-group selection, render-pass target
//! switching, per-command draw planning, uniform layouts and image uploads.
//!
//! Everything that talks to the GPU device itself is left to the caller: the
//! functions here compute what is to be created, bound and drawn, and say so
//! in their contracts.

pub mod blend;
pub mod floats;
pub mod params;
pub mod pipeline;
pub mod uniforms;
pub mod images;
pub mod bind_group;
pub mod stencil;
pub mod frame;
pub mod commands;
pub mod setup;
pub mod renderer;
