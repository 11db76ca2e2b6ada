//! Verified core of a LaTeX authoring backend: project configuration, build
//! planning and diagnostics, SyncTeX queries, templates and file operations.
pub mod command;
pub mod number;
pub mod path;
pub mod project;
pub mod svc_build;
pub mod svc_file;
pub mod svc_synctex;
pub mod svc_template;
pub mod text;
