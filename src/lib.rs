//! Decision logic for an interop renderer that draws with an explicit graphics
//! API into back-buffers of a composition swap-chain owned by the OS compositor
//! API: status codes, buffer layout, memory-type choice, shared back-buffer
//! slots, shader words and the per-frame handshake.
pub mod commands;
pub mod frame;
pub mod layout;
pub mod memory;
pub mod shader;
pub mod slot;
pub mod status;
pub mod surface;
