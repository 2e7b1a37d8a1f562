//! A one-shot system information display: probes of the host's identity,
//! kernel, CPU, GPUs, uptime and memory from the text of the files that
//! hold them, and a layout that puts the facts beside the distribution's art
//! block as terminal directives.

pub mod case;
pub mod cli;
pub mod distro;
pub mod gpu;
pub mod hardware;
pub mod layout;
pub mod probe;
pub mod style;
pub mod text;
