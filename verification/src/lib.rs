//! Event-driven view dispatcher for a terminal application, together with the
//! command language of its character editor.

pub mod app;
pub mod chars;
pub mod input;
pub mod parser;
pub mod text;
pub mod views;
