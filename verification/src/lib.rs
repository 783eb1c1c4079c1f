//! The download list of a desktop download manager: the table that holds one
//! row per tracked download, the migration that creates it, a model of the
//! rows and their lifecycle, and the plan by which the application starts.

pub mod migration;
pub mod model;
pub mod record;
pub mod rows;
pub mod startup;
pub mod store;
