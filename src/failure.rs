use vstd::prelude::*;

verus! {

/// One frame of the interpreter's call chain: the file the code came from
/// and the line being run in it.
#[derive(Debug)]
pub struct Frame {
    pub file: String,
    pub line: usize,
}

/// A frame as a mathematical value.
pub struct FrameModel {
    pub file: Seq<char>,
    pub line: usize,
}

impl View for Frame {
    type V = FrameModel;

    open spec fn view(&self) -> FrameModel {
        FrameModel { file: self.file@, line: self.line }
    }
}

/// What the interpreter reported of an unhandled failure, as plain values.
/// Each optional field is `None` where the attribute was missing or could not
/// be read as the expected type.
#[derive(Debug)]
pub struct InterpreterFailure {
    /// The name of the failure's kind.
    pub kind_name: String,
    /// The failure carries a payload value.
    pub has_value: bool,
    /// The kind is exactly the interpreter's syntax error.
    pub is_syntax_error: bool,
    /// The payload's line number attribute.
    pub lineno: Option<usize>,
    /// The payload's message attribute.
    pub msg: Option<String>,
    /// The call chain, outermost frame first; empty where there is none.
    pub frames: Vec<Frame>,
    /// The payload rendered as text.
    pub text: Option<String>,
}

/// A failure as a mathematical value: strings become character sequences.
pub struct FailureModel {
    pub kind_name: Seq<char>,
    pub has_value: bool,
    pub is_syntax_error: bool,
    pub lineno: Option<usize>,
    pub msg: Option<Seq<char>>,
    pub frames: Seq<FrameModel>,
    pub text: Option<Seq<char>>,
}

pub open spec fn text_view(s: Option<String>) -> Option<Seq<char>> {
    match s {
        Some(t) => Some(t@),
        None => None,
    }
}

impl View for InterpreterFailure {
    type V = FailureModel;

    open spec fn view(&self) -> FailureModel {
        FailureModel {
            kind_name: self.kind_name@,
            has_value: self.has_value,
            is_syntax_error: self.is_syntax_error,
            lineno: self.lineno,
            msg: text_view(self.msg),
            frames: self.frames@.map_values(|fr: Frame| fr@),
            text: text_view(self.text),
        }
    }
}

/// The message to report and, where one was found, the line of the embedded
/// source that it concerns.
#[derive(Debug)]
pub struct Classification {
    pub message: String,
    pub line: Option<usize>,
}

impl View for Classification {
    type V = (Seq<char>, Option<usize>);

    open spec fn view(&self) -> (Seq<char>, Option<usize>) {
        (self.message@, self.line)
    }
}

/// The line of the first frame, from index `i` on, whose file is `host`.
pub open spec fn host_frame_from(frames: Seq<FrameModel>, host: Seq<char>, i: int) -> Option<usize>
    decreases frames.len() - i,
{
    if i < 0 || i >= frames.len() {
        None
    } else if frames[i].file == host {
        Some(frames[i].line)
    } else {
        host_frame_from(frames, host, i + 1)
    }
}

/// `k` is the first frame whose file is `host`.
pub open spec fn is_first_host_frame(frames: Seq<FrameModel>, host: Seq<char>, k: int) -> bool {
    &&& 0 <= k < frames.len()
    &&& frames[k].file == host
    &&& forall|j: int| 0 <= j < k ==> frames[j].file != host
}

/// The failure is a syntax error whose line and message could both be read.
pub open spec fn is_syntax_shape(f: FailureModel) -> bool {
    f.is_syntax_error && f.lineno is Some && f.msg is Some
}

/// The payload's text, or the kind's name where the payload cannot be rendered.
pub open spec fn fallback_text(f: FailureModel) -> Seq<char> {
    match f.text {
        Some(t) => t,
        None => f.kind_name,
    }
}

/// The message and line for a failure, by the first strategy that applies:
/// the kind's name alone for a failure without payload; the line and message
/// of a well-formed syntax error; the line of the first frame in the host file
/// with the payload's text; the payload's text with no line.
pub open spec fn classify_spec(f: FailureModel, host: Seq<char>) -> (Seq<char>, Option<usize>) {
    if !f.has_value {
        (f.kind_name, None)
    } else if is_syntax_shape(f) {
        (f.msg.unwrap(), f.lineno)
    } else if host_frame_from(f.frames, host, 0) is Some && f.text is Some {
        (f.text.unwrap(), host_frame_from(f.frames, host, 0))
    } else {
        (fallback_text(f), None)
    }
}

/// The line of the first frame of `frames` whose file is `host`.
pub fn host_frame_line(frames: &Vec<Frame>, host: &String) -> (r: Option<usize>)
    ensures
        r == host_frame_from(frames@.map_values(|fr: Frame| fr@), host@, 0),
{
    let ghost model = frames@.map_values(|fr: Frame| fr@);
    let n = frames.len();
    let mut i: usize = 0;
    while i < n
        invariant
            i <= n,
            n == frames@.len(),
            model == frames@.map_values(|fr: Frame| fr@),
            host_frame_from(model, host@, 0) == host_frame_from(model, host@, i as int),
        decreases n - i,
    {
        if frames[i].file == *host {
            return Some(frames[i].line);
        }
        i = i + 1;
    }
    None
}

fn copy_text(s: &String) -> (r: String)
    ensures
        r@ == s@,
{
    s.clone()
}

/// Works out what to report of an interpreter failure whose code was
/// embedded in the file `host_file`.
pub fn classify(failure: &InterpreterFailure, host_file: &str) -> (r: Classification)
    ensures
        r@ == classify_spec(failure@, host_file@),
{
    if !failure.has_value {
        return Classification { message: copy_text(&failure.kind_name), line: None };
    }
    if failure.is_syntax_error {
        if let Some(line) = failure.lineno {
            if let Some(msg) = &failure.msg {
                return Classification { message: copy_text(msg), line: Some(line) };
            }
        }
    }
    let host = host_file.to_owned();
    if let Some(line) = host_frame_line(&failure.frames, &host) {
        if let Some(text) = &failure.text {
            return Classification { message: copy_text(text), line: Some(line) };
        }
    }
    match &failure.text {
        Some(text) => Classification { message: copy_text(text), line: None },
        None => Classification { message: copy_text(&failure.kind_name), line: None },
    }
}

proof fn lemma_host_frame_is_first(frames: Seq<FrameModel>, host: Seq<char>, i: int, k: int)
    requires
        0 <= i <= k,
        is_first_host_frame(frames, host, k),
    ensures
        host_frame_from(frames, host, i) == Some(frames[k].line),
    decreases k - i,
{
    if i < k {
        lemma_host_frame_is_first(frames, host, i + 1, k);
    }
}

proof fn lemma_no_host_frame(frames: Seq<FrameModel>, host: Seq<char>, i: int)
    requires
        0 <= i,
        forall|j: int| 0 <= j < frames.len() ==> #[trigger] frames[j].file != host,
    ensures
        host_frame_from(frames, host, i) is None,
    decreases frames.len() - i,
{
    if i < frames.len() {
        lemma_no_host_frame(frames, host, i + 1);
    }
}

/// A failure without payload is reported by its kind's name, with no line.
pub proof fn lemma_no_payload(f: FailureModel, host: Seq<char>)
    requires
        !f.has_value,
    ensures
        classify_spec(f, host) == (f.kind_name, None::<usize>),
{
}

/// A syntax error whose line and message can be read is reported with that
/// line and message, whatever its call chain holds.
pub proof fn lemma_syntax_error_first(f: FailureModel, host: Seq<char>)
    requires
        f.has_value,
        f.is_syntax_error,
        f.lineno is Some,
        f.msg is Some,
    ensures
        classify_spec(f, host) == (f.msg.unwrap(), f.lineno),
{
}

/// Failing that, where some frame of the call chain is in the host file and
/// the payload renders as text, the failure is reported with that text and
/// the line of the first such frame in chain order.
pub proof fn lemma_first_host_frame(f: FailureModel, host: Seq<char>, k: int)
    requires
        f.has_value,
        !is_syntax_shape(f),
        is_first_host_frame(f.frames, host, k),
        f.text is Some,
    ensures
        classify_spec(f, host) == (f.text.unwrap(), Some(f.frames[k].line)),
{
    lemma_host_frame_is_first(f.frames, host, 0, k);
}

/// Where neither a syntax error's attributes nor a frame in the host file
/// with a rendered payload are at hand, the failure is reported by the
/// payload's text, with no line.
pub proof fn lemma_fallback(f: FailureModel, host: Seq<char>)
    requires
        f.has_value,
        !is_syntax_shape(f),
        (forall|j: int| 0 <= j < f.frames.len() ==> #[trigger] f.frames[j].file != host) || f.text
            is None,
    ensures
        classify_spec(f, host) == (fallback_text(f), None::<usize>),
        f.text is Some ==> classify_spec(f, host).0 == f.text.unwrap(),
{
    if f.text is Some {
        lemma_no_host_frame(f.frames, host, 0);
    }
}

/// Classifying depends on the failure's values and the host file alone:
/// equal inputs give equal results.
pub proof fn lemma_classify_deterministic(
    a: InterpreterFailure,
    b: InterpreterFailure,
    host: Seq<char>,
)
    requires
        a@ == b@,
    ensures
        classify_spec(a@, host) == classify_spec(b@, host),
{
}

} // verus!
