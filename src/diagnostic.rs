use vstd::prelude::*;
use vstd::string::StringExecFns;
use crate::failure::{InterpreterFailure, classify, classify_spec};
use crate::span::{LineSpan, TokenSpan, locate, span_for_line};

verus! {

/// Where a diagnostic is anchored: the macro invocation itself, or the span
/// found for a line of the embedded source.
#[derive(Debug)]
pub enum Anchor {
    CallSite,
    Line(LineSpan),
}

/// A diagnostic ready to be emitted by the host.
#[derive(Debug)]
pub struct Diagnostic {
    pub message: String,
    pub anchor: Anchor,
}

/// The text reported for a classified message: it names the embedded
/// language first.
pub open spec fn diagnostic_message(msg: Seq<char>) -> Seq<char> {
    "python: "@ + msg
}

/// The anchor for a line, where one is known: the line's span where the
/// tokens give one, else the call site.
pub open spec fn anchor_for(toks: Seq<TokenSpan>, line: Option<usize>) -> Anchor {
    match line {
        None => Anchor::CallSite,
        Some(l) => match locate(toks, l) {
            None => Anchor::CallSite,
            Some(ls) => Anchor::Line(ls),
        },
    }
}

/// Decides the diagnostic for an interpreter failure raised by code embedded
/// in `host_file`, whose tokens as written there are `tokens`.
pub fn emit_compile_error_msg(
    failure: &InterpreterFailure,
    host_file: &str,
    tokens: &Vec<TokenSpan>,
) -> (r: Diagnostic)
    ensures
        r.message@ == diagnostic_message(classify_spec(failure@, host_file@).0),
        r.anchor == anchor_for(tokens@, classify_spec(failure@, host_file@).1),
{
    let c = classify(failure, host_file);
    let mut message = String::from_str("python: ");
    message.append(c.message.as_str());
    let anchor = match c.line {
        None => Anchor::CallSite,
        Some(l) => match span_for_line(tokens, l) {
            None => Anchor::CallSite,
            Some(ls) => Anchor::Line(ls),
        },
    };
    Diagnostic { message, anchor }
}

} // verus!
