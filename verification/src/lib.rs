//! The core of a small full-screen terminal program: a splash screen and a
//! directory browser, driven by single keystrokes.
//!
//! Nothing here touches the terminal or the file system. The crate decides:
//! which frame follows which key, what each frame writes, and when the
//! session ends. The program around it polls keys, lists directories and
//! writes the text it is handed.

pub mod app;
pub mod dir;
pub mod error;
pub mod frame;
pub mod intro;
pub mod key;
pub mod session;
pub mod term;
