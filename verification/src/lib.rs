//! Keyboard-driven triage of a list of image files: the session state
//! machine that decides what each key press does to the list, the cursor
//! and the preview, and which file-system action the caller has to perform.

pub mod cursor;
pub mod event;
pub mod keys;
pub mod mode;
pub mod rotation;
pub mod session;
pub mod slot;
pub mod theorems;
