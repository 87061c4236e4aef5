//! What is particular to one windowing system.

pub mod macos_vst;
pub mod windows;
