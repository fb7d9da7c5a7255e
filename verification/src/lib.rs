//! Verified core of the Vello render backend: staged shader loading,
//! cache headers, blur atlas layout and renderer start-up decisions.

pub mod clock;
pub mod text;
pub mod order;
pub mod minimal_shaders;
pub mod shader_cache;
pub mod staged_init;
pub mod staged_loader;
pub mod two_stage_init;
pub mod blur;
pub mod settings;
pub mod vulkan;
pub mod filter;
pub mod foreign_texture;
pub mod offscreen;
pub mod layer;
pub mod texture_pool;
pub mod backend;
pub mod pipeline_cache;
pub mod native_presenter;
pub mod shadow_cache;
pub mod sums;
pub mod frame;
pub mod present;
