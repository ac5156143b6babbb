//! A read-only view of a DANDI archive as a tree of typed resources: the path
//! algebra, the asset model and its validation, and the protocol-facing
//! rendering of resources.
pub mod children;
pub mod dav;
pub mod paths;
pub mod resolve;
pub mod s3;
pub mod text;
pub mod timestamp;
pub mod types;
