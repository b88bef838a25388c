//! Handoff construction and boot-exit protocol of a firmware-stage loader.
//!
//! The loader gathers the display surface, the physical memory map and the
//! ACPI root pointer, records them in a fixed-layout handoff block and leaves
//! firmware boot services. Everything here works on plain values: the caller
//! performs the firmware calls and reports their outcome.

pub mod acpi;
pub mod assembler;
pub mod boot_exit;
pub mod error;
pub mod firmware;
pub mod framebuffer;
pub mod handoff;
pub mod loader;
pub mod memory_map;
