//! Developer apps.

pub mod apps;
