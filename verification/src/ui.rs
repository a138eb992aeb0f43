use vstd::prelude::*;
use vstd::string::*;

verus! {

/// How a piece of text is meant to look; the terminal decides what it makes
/// of it.
#[derive(Debug, Clone, Copy, PartialEq, Eq, Structural)]
pub enum Tone {
    Plain,
    /// The title of a section.
    Title,
    /// Emphasis.
    Strong,
    /// Something the user should look at.
    Warning,
    /// Something that went wrong.
    Failure,
    /// Something that went well.
    Success,
    /// Detail of lesser weight.
    Faint,
    /// A name or a path that the text is about.
    Accent,
    /// Text that the user may want to copy.
    Notice,
}

/// A piece of a line in one tone.
#[derive(Debug, Clone, PartialEq, Eq)]
pub struct Span {
    pub tone: Tone,
    pub text: String,
}

/// A piece of a line as a value.
pub struct SpanView {
    pub tone: Tone,
    pub text: Seq<char>,
}

impl View for Span {
    type V = SpanView;

    open spec fn view(&self) -> SpanView {
        SpanView { tone: self.tone, text: self.text@ }
    }
}

/// A line of output, for stdout or for stderr. The newline that ends it is
/// not part of it.
#[derive(Debug, Clone, PartialEq, Eq)]
pub struct Line {
    pub to_stderr: bool,
    pub spans: Vec<Span>,
}

/// A line of output as a value.
pub struct LineView {
    pub to_stderr: bool,
    pub spans: Seq<SpanView>,
}

/// The pieces of a list, each as a value.
pub open spec fn span_views(spans: Seq<Span>) -> Seq<SpanView> {
    spans.map_values(|s: Span| s@)
}

impl View for Line {
    type V = LineView;

    open spec fn view(&self) -> LineView {
        LineView { to_stderr: self.to_stderr, spans: span_views(self.spans@) }
    }
}

/// The lines of a list, each as a value.
pub open spec fn line_views(lines: Seq<Line>) -> Seq<LineView> {
    lines.map_values(|l: Line| l@)
}

/// A piece of text in a tone.
pub open spec fn span(tone: Tone, text: Seq<char>) -> SpanView {
    SpanView { tone, text }
}

/// A line for stdout.
pub open spec fn out_line(spans: Seq<SpanView>) -> LineView {
    LineView { to_stderr: false, spans }
}

/// A line for stderr.
pub open spec fn err_line(spans: Seq<SpanView>) -> LineView {
    LineView { to_stderr: true, spans }
}

/// An empty line for stdout.
pub open spec fn blank_line() -> LineView {
    out_line(Seq::empty())
}

/// A line for stdout that is one piece of text.
pub open spec fn toned_line(tone: Tone, text: Seq<char>) -> LineView {
    out_line(seq![span(tone, text)])
}

/// The text of the pieces up to the `n`th, without their tones.
pub open spec fn spans_text(spans: Seq<SpanView>, n: int) -> Seq<char>
    decreases n,
{
    if n <= 0 {
        Seq::empty()
    } else {
        spans_text(spans, n - 1) + spans[n - 1].text
    }
}

/// The text of a line, without tones.
pub open spec fn line_text(line: LineView) -> Seq<char> {
    spans_text(line.spans, line.spans.len() as int)
}

impl Span {
    /// A piece of text in a tone.
    pub fn new(tone: Tone, text: &str) -> (r: Span)
        ensures
            r@ == span(tone, text@),
    {
        Span { tone, text: String::from_str(text) }
    }
}

impl Line {
    /// A line for stdout made of the given pieces.
    pub fn out(spans: Vec<Span>) -> (r: Line)
        ensures
            r@ == out_line(span_views(spans@)),
    {
        Line { to_stderr: false, spans }
    }

    /// A line for stderr made of the given pieces.
    pub fn err(spans: Vec<Span>) -> (r: Line)
        ensures
            r@ == err_line(span_views(spans@)),
    {
        Line { to_stderr: true, spans }
    }

    /// An empty line for stdout.
    pub fn blank() -> (r: Line)
        ensures
            r@ == blank_line(),
    {
        let r = Line { to_stderr: false, spans: Vec::new() };
        proof {
            assert(r@.spans =~= Seq::<SpanView>::empty());
        }
        r
    }

    /// A line for stdout that is one piece of text.
    pub fn toned(tone: Tone, text: &str) -> (r: Line)
        ensures
            r@ == toned_line(tone, text@),
    {
        let mut spans: Vec<Span> = Vec::new();
        spans.push(Span::new(tone, text));
        let r = Line { to_stderr: false, spans };
        proof {
            assert(r@.spans =~= seq![span(tone, text@)]);
        }
        r
    }

    /// A line for stderr that is one piece of text.
    pub fn complaint(tone: Tone, text: &str) -> (r: Line)
        ensures
            r@ == err_line(seq![span(tone, text@)]),
    {
        let mut spans: Vec<Span> = Vec::new();
        spans.push(Span::new(tone, text));
        let r = Line { to_stderr: true, spans };
        proof {
            assert(r@.spans =~= seq![span(tone, text@)]);
        }
        r
    }

    /// The text of this line, without tones.
    pub fn text(&self) -> (r: String)
        ensures
            r@ == line_text(self@),
    {
        let mut out = String::new();
        let mut i: usize = 0;
        while i < self.spans.len()
            invariant
                i <= self.spans.len(),
                out@ == spans_text(self@.spans, i as int),
            decreases self.spans.len() - i,
        {
            out.append(self.spans[i].text.as_str());
            i = i + 1;
        }
        out
    }
}

} // verus!
