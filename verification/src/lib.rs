//! The document and tab state of a multi-document text editor, and the
//! protocol by which its files are opened and saved while the user keeps
//! working.
pub mod buffer;
pub mod document;
pub mod editor;
pub mod error;
pub mod file_service;
pub mod laws;
pub mod manager;
pub mod shell;
