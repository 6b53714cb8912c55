//! lyricwave: the verified core of a cross-platform audio capture and subtitle pipeline.
pub mod audio;
pub mod cli;
pub mod commands;
pub mod composition;
pub mod config;
pub mod mux;
pub mod os;
pub mod pipeline;
pub mod recording;
pub mod sorted_map;
pub mod text;
pub mod video;
