//! Advanced site features.

pub mod holiday_regions;
