//! A safe, read-only query layer over CPU topology records discovered by a
//! one-time hardware-detection pass: packages, clusters, cores and logical
//! processors, held as flat tables and traversed through lightweight views
//! and contiguous range iterators.

pub mod laws;
pub mod ranges;
pub mod records;
pub mod render;
pub mod text;
pub mod topology;
pub mod views;
