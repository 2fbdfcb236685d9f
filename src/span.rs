use vstd::prelude::*;

verus! {

/// A position in the host source: a 1-based line and a 0-based column.
#[derive(Clone, Copy, Debug, PartialEq, Eq, Structural)]
pub struct LineColumn {
    pub line: usize,
    pub column: usize,
}

/// `a` comes no later than `b` in the source text.
pub open spec fn pos_le(a: LineColumn, b: LineColumn) -> bool {
    a.line < b.line || (a.line == b.line && a.column <= b.column)
}

pub open spec fn min_pos(a: LineColumn, b: LineColumn) -> LineColumn {
    if pos_le(a, b) { a } else { b }
}

pub open spec fn max_pos(a: LineColumn, b: LineColumn) -> LineColumn {
    if pos_le(a, b) { b } else { a }
}

impl LineColumn {
    pub fn precedes_or_equals(&self, other: &LineColumn) -> (r: bool)
        ensures
            r == pos_le(*self, *other),
    {
        self.line < other.line || (self.line == other.line && self.column <= other.column)
    }
}

/// The source range of one host token: the file it was read from, and where
/// it starts and ends in that file.
#[derive(Debug)]
pub struct TokenSpan {
    pub file: String,
    pub start: LineColumn,
    pub end: LineColumn,
}

/// The span covering `a` and `b`, as the host's span `join` computes it:
/// none when they come from different files, else from the earlier start to
/// the later end.
pub open spec fn join_spec(a: TokenSpan, b: TokenSpan) -> Option<TokenSpan> {
    if a.file@ != b.file@ {
        None
    } else {
        Some(
            TokenSpan { file: a.file, start: min_pos(a.start, b.start), end: max_pos(a.end, b.end) },
        )
    }
}

/// `outer` reaches from no later than the start of `inner` to no earlier than its end.
pub open spec fn covers(outer: TokenSpan, inner: TokenSpan) -> bool {
    pos_le(outer.start, inner.start) && pos_le(inner.end, outer.end)
}

impl TokenSpan {
    pub fn duplicate(&self) -> (r: TokenSpan)
        ensures
            r == *self,
    {
        TokenSpan { file: self.file.clone(), start: self.start, end: self.end }
    }

    /// Joins two spans into one that covers both; `None` when they come from
    /// different files.
    pub fn join(&self, other: &TokenSpan) -> (r: Option<TokenSpan>)
        ensures
            r == join_spec(*self, *other),
    {
        if !(self.file == other.file) {
            return None;
        }
        let start = if self.start.precedes_or_equals(&other.start) {
            self.start
        } else {
            other.start
        };
        let end = if self.end.precedes_or_equals(&other.end) {
            other.end
        } else {
            self.end
        };
        Some(TokenSpan { file: self.file.clone(), start, end })
    }
}

/// The span found for one line: the indices of the first and the last token
/// merged into it, and the merged span.
#[derive(Debug)]
pub struct LineSpan {
    pub first: usize,
    pub last: usize,
    pub span: TokenSpan,
}

/// The index of the first token, from `i` on, that does not start before `line`
/// (the length of `toks` where there is none).
pub open spec fn skip_before(toks: Seq<TokenSpan>, line: usize, i: int) -> int
    decreases toks.len() - i,
{
    if i < 0 || i >= toks.len() || toks[i].start.line >= line {
        i
    } else {
        skip_before(toks, line, i + 1)
    }
}

/// Goes on joining `acc`, the span of tokens `first` to `i - 1`, with each next
/// token that starts on `line`, and stops at the first token that does not, or
/// where a join fails.
pub open spec fn merge_from(
    toks: Seq<TokenSpan>,
    line: usize,
    first: usize,
    acc: TokenSpan,
    i: int,
) -> LineSpan
    decreases toks.len() - i,
{
    if i < 0 || i >= toks.len() || toks[i].start.line != line {
        LineSpan { first, last: (i - 1) as usize, span: acc }
    } else {
        match join_spec(acc, toks[i]) {
            None => LineSpan { first, last: (i - 1) as usize, span: acc },
            Some(j) => merge_from(toks, line, first, j, i + 1),
        }
    }
}

/// The span of `line`: skip the tokens that start before it, then join the
/// run of tokens that start on it; none where that run is empty.
pub open spec fn locate(toks: Seq<TokenSpan>, line: usize) -> Option<LineSpan> {
    let s = skip_before(toks, line, 0);
    if s >= toks.len() || toks[s].start.line != line {
        None
    } else {
        Some(merge_from(toks, line, s as usize, toks[s], s + 1))
    }
}

/// Finds the span that covers the tokens starting on `line`, for a
/// diagnostic on that line.
pub fn span_for_line(tokens: &Vec<TokenSpan>, line: usize) -> (r: Option<LineSpan>)
    ensures
        r == locate(tokens@, line),
{
    let n = tokens.len();
    let mut i: usize = 0;
    while i < n && tokens[i].start.line < line
        invariant
            i <= n,
            n == tokens@.len(),
            skip_before(tokens@, line, 0) == skip_before(tokens@, line, i as int),
        decreases n - i,
    {
        i = i + 1;
    }
    if i == n || tokens[i].start.line != line {
        return None;
    }
    let first = i;
    let mut acc = tokens[i].duplicate();
    i = i + 1;
    loop
        invariant
            first < i <= n,
            n == tokens@.len(),
            locate(tokens@, line) == Some(merge_from(tokens@, line, first, acc, i as int)),
        decreases n - i,
    {
        if i == n || tokens[i].start.line != line {
            return Some(LineSpan { first, last: i - 1, span: acc });
        }
        match acc.join(&tokens[i]) {
            None => {
                return Some(LineSpan { first, last: i - 1, span: acc });
            },
            Some(joined) => {
                acc = joined;
                i = i + 1;
            },
        }
    }
}

/// The tokens' start lines never decrease: they come in source order.
pub open spec fn starts_sorted(toks: Seq<TokenSpan>) -> bool {
    forall|i: int, j: int|
        0 <= i <= j < toks.len() ==> #[trigger] toks[i].start.line <= #[trigger] toks[j].start.line
}

/// Every token that starts on `line` also ends on it, and all of them come
/// from one file.
pub open spec fn line_tokens_plain(toks: Seq<TokenSpan>, line: usize) -> bool {
    &&& forall|i: int|
        0 <= i < toks.len() && #[trigger] toks[i].start.line == line ==> toks[i].end.line == line
    &&& forall|i: int, j: int|
        0 <= i < toks.len() && 0 <= j < toks.len() && #[trigger] toks[i].start.line == line
            && #[trigger] toks[j].start.line == line ==> toks[i].file@ == toks[j].file@
}

proof fn lemma_skip(toks: Seq<TokenSpan>, line: usize, i: int, k: int)
    requires
        starts_sorted(toks),
        0 <= i <= k < toks.len(),
        toks[k].start.line == line,
        forall|j: int| 0 <= j < i ==> #[trigger] toks[j].start.line < line,
    ensures
        i <= skip_before(toks, line, i) <= k,
        toks[skip_before(toks, line, i)].start.line == line,
        forall|j: int| 0 <= j < skip_before(toks, line, i) ==> #[trigger] toks[j].start.line < line,
    decreases k - i,
{
    if toks[i].start.line < line {
        lemma_skip(toks, line, i + 1, k);
    }
}

proof fn lemma_skip_at_least(toks: Seq<TokenSpan>, line: usize, i: int)
    requires
        0 <= i,
    ensures
        i <= skip_before(toks, line, i),
    decreases toks.len() - i,
{
    if i < toks.len() && toks[i].start.line < line {
        lemma_skip_at_least(toks, line, i + 1);
    }
}

proof fn lemma_merge(toks: Seq<TokenSpan>, line: usize, first: usize, acc: TokenSpan, i: int)
    requires
        starts_sorted(toks),
        line_tokens_plain(toks, line),
        toks.len() <= usize::MAX,
        first < i <= toks.len(),
        toks[first as int].start.line == line,
        forall|j: int| 0 <= j < first ==> #[trigger] toks[j].start.line < line,
        forall|j: int|
            first <= j < i ==> #[trigger] toks[j].start.line == line && covers(acc, toks[j]),
        acc.file@ == toks[first as int].file@,
        acc.start.line == line,
        acc.end.line == line,
    ensures
        ({
            let r = merge_from(toks, line, first, acc, i);
            &&& r.first == first
            &&& first <= r.last < toks.len()
            &&& toks[r.last as int].start.line == line
            &&& r.span.start.line == line
            &&& r.span.end.line == line
            &&& forall|j: int|
                0 <= j < toks.len() && #[trigger] toks[j].start.line == line ==> first <= j
                    <= r.last && covers(r.span, toks[j])
        }),
    decreases toks.len() - i,
{
    if i < toks.len() && toks[i].start.line == line {
        assert(toks[first as int].start.line == line);
        let j = join_spec(acc, toks[i]).unwrap();
        assert forall|m: int| first <= m < i + 1 implies #[trigger] toks[m].start.line == line
            && covers(j, toks[m]) by {
            if m < i {
                assert(covers(acc, toks[m]));
            }
        }
        lemma_merge(toks, line, first, j, i + 1);
    } else {
        assert forall|j: int|
            0 <= j < toks.len() && #[trigger] toks[j].start.line == line implies first <= j < i
                && covers(acc, toks[j]) by {
            if j >= i {
                assert(toks[i].start.line <= toks[j].start.line);
                assert(toks[first as int].start.line <= toks[i].start.line);
            }
        }
    }
}

/// Where no token starts on `line`, no span is found for it.
pub proof fn lemma_no_token_no_span(toks: Seq<TokenSpan>, line: usize)
    requires
        forall|i: int| 0 <= i < toks.len() ==> #[trigger] toks[i].start.line != line,
    ensures
        locate(toks, line) is None,
{
    lemma_skip_at_least(toks, line, 0);
}

/// For tokens in source order, where some token starts on `line`, a span is
/// found for it. Where moreover the tokens that start on `line` end on it and
/// come from one file, that span lies within `line` and covers every one of
/// them, from the first to the last.
pub proof fn lemma_span_of_line(toks: Seq<TokenSpan>, line: usize, k: int)
    requires
        starts_sorted(toks),
        toks.len() <= usize::MAX,
        0 <= k < toks.len(),
        toks[k].start.line == line,
    ensures
        locate(toks, line) is Some,
        line_tokens_plain(toks, line) ==> ({
            let r = locate(toks, line).unwrap();
            &&& r.first <= r.last < toks.len()
            &&& toks[r.first as int].start.line == line
            &&& toks[r.last as int].start.line == line
            &&& r.span.start.line == line
            &&& r.span.end.line == line
            &&& forall|j: int|
                0 <= j < toks.len() && #[trigger] toks[j].start.line == line ==> r.first <= j
                    <= r.last && covers(r.span, toks[j])
        }),
{
    lemma_skip(toks, line, 0, k);
    let s = skip_before(toks, line, 0);
    if line_tokens_plain(toks, line) {
        lemma_merge(toks, line, s as usize, toks[s], s + 1);
    }
}

/// The span found for a line depends on the tokens' values alone: equal
/// token sequences give equal results.
pub proof fn lemma_locate_deterministic(a: Seq<TokenSpan>, b: Seq<TokenSpan>, line: usize)
    requires
        a == b,
    ensures
        locate(a, line) == locate(b, line),
{
}

} // verus!
