//! Maps a failure of an embedded Python interpreter onto a diagnostic
//! anchored in the host source that embedded the Python code.
pub mod diagnostic;
pub mod failure;
pub mod span;

pub use span::{LineColumn, LineSpan, TokenSpan, span_for_line};
pub use failure::{Classification, Frame, InterpreterFailure, classify, host_frame_line};
pub use diagnostic::{Anchor, Diagnostic, emit_compile_error_msg};
