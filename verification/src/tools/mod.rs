//! The external tools of the build and how each is driven.

pub mod archive;
pub mod creation_kit;
pub mod xedit;

pub use archive::{add_to_archive, extract_archive, get_archive_qualifiers, run_archive, run_bsarch};
pub use creation_kit::{run_creation_kit, CkpeSettings};
pub use xedit::run_xedit_script;
