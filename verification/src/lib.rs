//! Decision core of a utility that keeps the Windows taskbar hidden.
//!
//! Everything that talks to the operating system lives outside this crate.
//! What is here are the rules the program follows: which windows count as
//! taskbars, what is written to the shell's auto-hide flag and when, how
//! the private window messages map to events, what each command-line verb
//! does, and which image of an icon file becomes the tray icon.

pub mod appbar;
pub mod cache;
pub mod cli;
pub mod control;
pub mod icon;
pub mod instance;
pub mod ipc;
pub mod taskbar;
pub mod text;
