//! Decision core of a redundant ("A/B") boot-slot loader.
//!
//! The library tracks which of two installed boot images is active, supports
//! a one-shot override so a newly installed image can be tried exactly once,
//! selects a target image each boot, derives the device path of a slot's
//! image from the path of the running loader, and plans the
//! load-with-fallback control flow.  Firmware services (storage, path
//! construction, image load/start, console output) stay outside: callers
//! hand the library plain values and carry out the actions it decides on.

pub mod slot;
pub mod state;
pub mod codec;
pub mod selector;
pub mod controller;
pub mod path;
