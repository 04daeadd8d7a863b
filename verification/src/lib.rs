//! Write-operation command/response layer for a document database driver.
//!
//! A logical "delete documents" request is turned into a wire-level command
//! document, and the server's decoded reply is turned into either a typed
//! success result or a structured error. Transport, server selection and
//! byte-level encoding are external collaborators: this crate works on
//! already-decoded documents.

pub mod cmap;
pub mod concern;
pub mod delete;
pub mod document;
pub mod error;
pub mod namespace;
pub mod operation;
pub mod options;

pub use delete::Delete;
pub use delete::DeleteLimit;
pub use delete::DeleteResult;
pub use document::Document;
pub use document::Field;
pub use document::SpecValue;
pub use document::Value;
pub use namespace::Namespace;
pub use operation::Operation;
