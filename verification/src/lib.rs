//! Verified core of a document-to-PDF conversion service.
//!
//! The library models the conversion pipeline: allocating a temporary
//! workspace, building the converter's job descriptor, sequencing the
//! download / convert / upload stages, and classifying converter failures
//! into a typed error taxonomy. All I/O (blob store, filesystem, child
//! process) is performed by the surrounding application, which drives the
//! verified state machine defined here.

pub mod classify;
pub mod codes;
pub mod descriptor;
pub mod errors;
pub mod pipeline;
pub mod request;
pub mod workspace;
