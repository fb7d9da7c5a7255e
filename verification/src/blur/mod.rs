//! Blur bookkeeping: dirty classification, texture sizing, rebuild
//! selection and atlas layout. The blur entries are described by plain
//! values; the GPU textures stay with the caller.

pub mod types;
pub mod dirty;
pub mod atlas;
pub mod passes;
pub mod pack;
pub mod composite;
