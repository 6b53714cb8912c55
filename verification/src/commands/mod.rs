//! The decisions that the command-line commands make, apart from their I/O.
pub mod capture;
pub mod daemon;
pub mod pipeline;
pub mod record;
pub mod video;
pub mod visual;
