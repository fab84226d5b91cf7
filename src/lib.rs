//! Tells whether the code runs inside the QEMU virtual machine, from the
//! processor identification data that unprivileged code can read.
//!
//! The decision itself is a pure function over the evidence that the
//! identification leaves give; reading those leaves goes through `raw_cpuid`.
mod certainty;

pub use certainty::QemuCertainty;
mod brand;

pub use brand::contains_qemu_marker;
mod evidence;

pub use evidence::{classify, Evidence, Hypervisor};
mod detect;

pub use detect::runs_inside_qemu;
