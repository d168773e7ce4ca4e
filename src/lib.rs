//! A minimal full-screen terminal editor shell: a cursor model bounded by the
//! screen geometry, key dispatch, and the painting of a fixed screen layout
//! into the text that is sent to the terminal.
pub mod editor;
pub mod lemmas;
pub mod terminal;
