//! Resource and command lifecycle for a renderer that drives an explicit,
//! handle-based GPU interface.
//!
//! The crate owns the bookkeeping around GPU objects: which memory class an
//! allocation comes from, how buffers and images are paired with memory, how
//! descriptor pools are budgeted, which commands a command buffer may take in
//! which state, and how a swapchain is built and rebuilt. The GPU itself is
//! reached through the [`device::Device`] trait, whose methods promise
//! nothing: every contract in this crate holds whatever a device answers.

pub mod device;
pub mod ecs;
pub mod error;
pub mod frame;
pub mod init;
pub mod render_graph;
pub mod renderer;
pub mod resources;
pub mod scene;
