//! The verified core of an automated code-review service.
//!
//! The service receives source-control webhooks, authenticates as an
//! installed application, retrieves the files a commit changed, asks an
//! external language model to propose one improvement, and posts the result
//! as a pull-request comment. This crate holds everything in that pipeline
//! with sequencing, failure-handling or protocol content, each function
//! carrying a proved contract: webhook classification ([`event`]), the
//! identity-to-token exchange ([`token`]), diff retrieval and decoding
//! ([`diff`]), the three-stage prompt chain ([`analysis`]), branch naming
//! ([`branch`]), decimal numerals ([`numeral`]), and the per-delivery state
//! machine that sequences the stages ([`orchestrator`]). The transports —
//! HTTP, the clock, the file system — stay outside; where an outside crate
//! computes inside the logic, the call stands behind a small trusted
//! wrapper whose contract names exactly what is relied on.

pub mod analysis;
pub mod branch;
pub mod diff;
pub mod event;
pub mod numeral;
pub mod orchestrator;
pub mod token;
