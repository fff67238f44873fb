//! Resource planning and frame synchronisation for a two-pass deferred
//! renderer on an explicit graphics API.
//!
//! The crate decides; it does not talk to a driver. Every function takes
//! plain values (handles, sizes, masks, what the driver reported) and
//! returns plain values (what to create, where to bind it, what to submit
//! and in which order). The caller carries the decisions out.
//!
//! Objects are built in a conversation with the driver: a planner is a
//! function from the answers received so far to the next request, and
//! returns what was built once it has all the answers it needs. A frame is
//! rendered in the same way, by a state machine that is fed what happened
//! and says what to do next. What the renderer owns is kept in an order
//! in which it can be destroyed.
pub mod buffer_plan;
pub mod deferred;
pub mod deferred_plan;
pub mod device;
pub mod driver;
pub mod frame;
pub mod engine;
pub mod g_buffer;
pub mod image_plan;
pub mod loader;
pub mod memory;
pub mod mesh;
pub mod mesh_plan;
pub mod ownership;
pub mod pass_plan;
pub mod pool_plan;
pub mod renderer;
pub mod renderer_plan;
pub mod resource;
pub mod scene_plan;
pub mod shader;
pub mod shader_parser;
pub mod shader_plan;
pub mod surface;
pub mod texture;
pub mod uniform;
pub mod vk;
pub mod vk_commands;
