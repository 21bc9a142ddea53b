//! Controllers, one module for each resource.

pub mod posts_controller;
