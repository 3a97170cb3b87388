//! Helpers around the Unreal Engine toolchain: building the argument lists of
//! the engine's scripts, classifying and collecting the output of the processes
//! that run them, and the small amount of project and configuration data that
//! this needs.
pub mod text;
pub mod line;
pub mod log;
pub mod runner;
pub mod platform;
pub mod paths;
pub mod config;
pub mod uproject;
pub mod cli;
pub mod editor;
