//! Interactive format selection for a media downloader: the format catalog,
//! its classification, the preset menu, the prompt sequence and the
//! command-line options that the chosen formats turn into.

pub mod text;
pub mod infojson;
pub mod classify;
pub mod preset;
pub mod picker;
pub mod command;
pub mod labels;
pub mod flow;
