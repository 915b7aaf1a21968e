//! What the platform backends decide from the values they read.

pub mod sysfs;
