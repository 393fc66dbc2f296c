//! Native command layer for a desktop application: recursive scanning for
//! filter files, shell-mediated open/copy operations with injection-safe
//! quoting, and idempotent overlay-window planning.

pub mod dispatch;
pub mod errors;
pub mod overlay;
pub mod scanner;
pub mod shell;
