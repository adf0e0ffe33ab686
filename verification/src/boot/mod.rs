//! Boot protocol headers.

pub mod early_print;
pub mod multiboot;
