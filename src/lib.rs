//! The folder-selection command of a desktop shell: what it replies once the
//! native dialog has been dealt with.

pub mod picker;

pub use picker::{resolve_selection, select_folder_reply, DialogOutcome, PickError};
