//! The decisions of a small windowed renderer, separated from the graphics
//! device that carries them out.
//!
//! The modules follow the life of the program: `setup` chooses a queue family,
//! a colour format and a render pass; `startup` walks from the creation of the
//! window to the event loop; `pipeline` drives the construction of the
//! graphics pipeline; `scene` describes the triangles; `swapchain` sizes the
//! images that are presented; `renderer` reacts to window events and walks
//! through a frame, and `laws` states what holds along the way; `frame` lists the
//! commands of a frame; `resources` orders the teardown. `hal` holds what is taken
//! from `gfx-hal`.
pub mod frame;
pub mod hal;
pub mod laws;
pub mod pipeline;
pub mod renderer;
pub mod resources;
pub mod scene;
pub mod setup;
pub mod startup;
pub mod swapchain;
