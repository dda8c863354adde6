//! Fixed values of the tool.
pub mod go;
