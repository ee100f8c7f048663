//! Runtime start-up on seL4: secondary CPU bring-up and the root event loop.
pub mod mp;
pub mod sel4_handler;
