//! An error-propagation annotation layer.
//!
//! Every time a fallible operation's error crosses a function boundary it can
//! be wrapped in a [`report::Report`] frame recording the call site (file and
//! line) and the identity (name and version) of the component that performed
//! the wrap.  Nested frames form a chain whose renderer prints the whole
//! propagation path as one arrow-joined string, and whose root-cause lookup
//! skips all frames and returns the original failure.

pub mod decimal;
pub mod laws;
pub mod report;

pub use report::Cause;
pub use report::Report;
pub use report::TagPolicy;
pub use report::TerminalError;
