//! Sources for the Linux distributions, grouped by family.
pub mod arch;
pub mod debian;
pub mod fedora_redhat;
pub mod independent;
