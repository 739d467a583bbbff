//! Styled text, line by line.

use vstd::prelude::*;

use crate::ui::theme::Style;

verus! {

/// What a [`Span`] shows.
pub struct SpanData {
    /// Its text.
    pub text: Seq<char>,
    /// How it is drawn.
    pub style: Style,
}

/// A piece of text in one style.
#[derive(Debug, PartialEq, Eq)]
pub struct Span {
    /// Its text.
    pub text: String,
    /// How it is drawn.
    pub style: Style,
}

/// One line of spans.
#[derive(Debug, PartialEq, Eq)]
pub struct Line {
    /// The spans, left to right.
    pub spans: Vec<Span>,
}

/// Some lines.
#[derive(Debug, PartialEq, Eq)]
pub struct Page {
    /// The lines, top to bottom.
    pub lines: Vec<Line>,
}

impl View for Line {
    type V = Seq<SpanData>;

    open spec fn view(&self) -> Seq<SpanData> {
        Seq::new(
            self.spans@.len(),
            |i: int| SpanData { text: self.spans@[i].text@, style: self.spans@[i].style },
        )
    }
}

impl View for Page {
    type V = Seq<Seq<SpanData>>;

    open spec fn view(&self) -> Seq<Seq<SpanData>> {
        Seq::new(self.lines@.len(), |i: int| self.lines@[i]@)
    }
}

/// A span showing `text` in `style`.
pub open spec fn span(text: Seq<char>, style: Style) -> SpanData {
    SpanData { text, style }
}

impl Line {
    /// An empty line.
    pub fn new() -> (r: Line)
        ensures
            r@ == Seq::<SpanData>::empty(),
    {
        let r = Line { spans: Vec::new() };
        assert(r@ =~= Seq::<SpanData>::empty());
        r
    }

    /// A line of one span.
    pub fn of(text: String, style: Style) -> (r: Line)
        ensures
            r@ == seq![span(text@, style)],
    {
        let mut r = Line::new();
        r.push(text, style);
        assert(r@ =~= seq![span(text@, style)]);
        r
    }

    /// Add a span at the end.
    pub fn push(&mut self, text: String, style: Style)
        ensures
            final(self)@ == old(self)@.push(span(text@, style)),
    {
        self.spans.push(Span { text, style });
        assert(self@ =~= old(self)@.push(span(text@, style)));
    }

    /// Add a literal span at the end.
    pub fn say(&mut self, text: &str, style: Style)
        ensures
            final(self)@ == old(self)@.push(span(text@, style)),
    {
        self.push(text.to_owned(), style);
    }
}

impl Page {
    /// An empty page.
    pub fn new() -> (r: Page)
        ensures
            r@ == Seq::<Seq<SpanData>>::empty(),
    {
        let r = Page { lines: Vec::new() };
        assert(r@ =~= Seq::<Seq<SpanData>>::empty());
        r
    }

    /// Add a line at the end.
    pub fn push(&mut self, line: Line)
        ensures
            final(self)@ == old(self)@.push(line@),
    {
        self.lines.push(line);
        assert(self@ =~= old(self)@.push(line@));
    }

    /// Add a line of one span at the end.
    pub fn say(&mut self, text: &str, style: Style)
        ensures
            final(self)@ == old(self)@.push(seq![span(text@, style)]),
    {
        self.push(Line::of(text.to_owned(), style));
    }

    /// Add an empty line at the end.
    pub fn skip_line(&mut self)
        ensures
            final(self)@ == old(self)@.push(seq![]),
    {
        self.push(Line::new());
    }
}

} // verus!
