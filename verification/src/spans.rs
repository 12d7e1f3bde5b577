//! Lines of styled text, before they meet a terminal.

use vstd::prelude::*;

verus! {

/// How a piece of text is to look.
#[derive(Clone, Copy, PartialEq, Eq, Structural, Debug)]
pub enum Tone {
    Plain,
    Bold,
    Dim,
    DimBold,
    DimItalic,
    /// Under the mouse.
    Hover,
    /// A count beside a header.
    Badge,
    /// The frame of an input; the focused one stands out.
    Frame(bool),
    /// The main button: whether its repository is active, and whether it is
    /// focused.
    Button(bool, bool),
    /// The half-block rows above and below the main button.
    ButtonCap(bool, bool),
    /// An action button; the one under the mouse stands out.
    Action(bool),
    /// A file's name in the colour of its status letter.
    Status(char),
    /// A status letter itself.
    Letter(char),
    /// A file's icon.
    Icon,
    /// The branch that is checked out.
    Current,
    /// Part of a line that a search has found.
    Match,
    /// The number of a found line.
    Accent,
    /// What went wrong.
    Error,
}

pub struct Span {
    pub text: String,
    pub tone: Tone,
}

/// What a `Span` holds.
#[verifier::ext_equal]
pub struct SpanView {
    pub text: Seq<char>,
    pub tone: Tone,
}

impl View for Span {
    type V = SpanView;

    open spec fn view(&self) -> SpanView {
        SpanView { text: self.text@, tone: self.tone }
    }
}

pub open spec fn piece(text: Seq<char>, tone: Tone) -> SpanView {
    SpanView { text, tone }
}

pub open spec fn line_view(line: Seq<Span>) -> Seq<SpanView> {
    line.map(|i: int, s: Span| s@)
}

pub open spec fn lines_view(lines: Seq<Vec<Span>>) -> Seq<Seq<SpanView>> {
    lines.map(|i: int, l: Vec<Span>| line_view(l@))
}

/// Add a piece of text to a line.
pub fn put(line: &mut Vec<Span>, text: String, tone: Tone)
    ensures
        line_view(final(line)@) == line_view(old(line)@).push(piece(text@, tone)),
{
    let ghost before: Seq<Span> = line@;
    line.push(Span { text, tone });
    assert(line_view(line@) =~= line_view(before).push(piece(text@, tone)));
}

/// Add a line below the others.
pub fn put_line(lines: &mut Vec<Vec<Span>>, line: Vec<Span>)
    ensures
        lines_view(final(lines)@) == lines_view(old(lines)@).push(line_view(line@)),
{
    let ghost before: Seq<Vec<Span>> = lines@;
    let ghost added: Seq<SpanView> = line_view(line@);
    lines.push(line);
    assert(lines_view(lines@) =~= lines_view(before).push(added));
}

pub fn empty_line() -> (res: Vec<Span>)
    ensures
        line_view(res@) == Seq::<SpanView>::empty(),
{
    let res: Vec<Span> = Vec::new();
    assert(line_view(res@) =~= Seq::<SpanView>::empty());
    res
}

pub fn no_lines() -> (res: Vec<Vec<Span>>)
    ensures
        lines_view(res@) == Seq::<Seq<SpanView>>::empty(),
{
    let res: Vec<Vec<Span>> = Vec::new();
    assert(lines_view(res@) =~= Seq::<Seq<SpanView>>::empty());
    res
}

} // verus!
