//! Safe core of a C-ABI shim around the resvg rendering library.
//!
//! The shim's surface has three operations: exporting an already-built
//! render tree back to XML as a NUL-terminated byte buffer, releasing such
//! a buffer, and reporting the linked library's version. Everything that
//! can be decided over plain values is verified here; the raw-pointer
//! boundary itself lives outside the library and only consults it.

pub mod boundary;
pub mod export;
pub mod status;
pub mod version;

pub use boundary::SlotEffect;
pub use boundary::decide_export;
pub use boundary::export_slot_effect;
pub use boundary::export_status;
pub use boundary::should_release;
pub use boundary::spec_should_release;
pub use boundary::validate_export_inputs;
pub use export::contains_nul;
pub use export::export_tree;
pub use export::nul_terminate;
pub use export::nul_terminated;
pub use export::xml_of;
pub use status::Status;
pub use status::status_code;
pub use version::version_bytes;
pub use version::version_string;
