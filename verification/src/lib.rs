//! Pre-flight validation and extraction pipeline for installing a root
//! filesystem image onto a mounted target directory.

pub mod constants;
pub mod error;
pub mod helpers;
pub mod path;
pub mod pipeline;
pub mod rootfs;
pub mod safety;
pub mod text;
