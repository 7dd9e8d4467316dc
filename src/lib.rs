//! A small vocabulary list kept in a delimited text file: the entry type, the
//! file codec, the modal input state machine and the key dispatcher.

/// One vocabulary record.
pub mod entries;

/// Reading and writing the delimited file format.
pub mod loader;

/// The application state machine.
pub mod app;

/// Routing of key presses to state machine operations.
pub mod handler;
