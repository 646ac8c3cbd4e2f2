//! Core logic of a desktop status bar: monitor sample parsing, utilization
//! arithmetic, template-based label formatting, and the debounce/diff state
//! machines that drive the presentation layer. All I/O (files, subprocesses,
//! bus queries, the compositor socket, the widget toolkit) lives outside
//! this library; every function here is pure logic over plain values.

pub mod battery;
pub mod clock;
pub mod config;
pub mod cpu;
pub mod memory;
pub mod netparse;
pub mod network;
pub mod text;
pub mod volume;
pub mod window;
pub mod workspace;
