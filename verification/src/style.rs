//! Styled text: what is said and in which tone, kept apart from how a terminal
//! shows it.
//!
//! Every message of the program is a [`Line`], a row of [`Span`]s. Which text
//! goes out in which tone is decided, and proved, on that structure. Turning a
//! line into the characters a terminal receives is left to the `colored` crate,
//! whose output depends on the environment; [`paint`] says what holds of it
//! whatever the environment is: no text is lost, and a plain text goes out
//! as it is.

use colored::Colorize;
use crate::text::concat_all;
use vstd::prelude::*;
use vstd::string::*;

verus! {

/// How a span is shown.
#[derive(Clone, Copy, Debug, PartialEq, Eq, Structural)]
pub enum Tone {
    Plain,
    Red,
    Green,
    Yellow,
    Blue,
    Magenta,
    Cyan,
    BoldGreen,
}

/// A foreground colour of the terminal palette.
#[derive(Clone, Copy, Debug, PartialEq, Eq, Structural)]
pub enum Hue {
    Red,
    Green,
    Yellow,
    Blue,
    Magenta,
    Cyan,
}

impl Tone {
    /// The colour of a tone; `Plain` has none.
    pub open spec fn hue_of(self) -> Option<Hue> {
        match self {
            Tone::Plain => None,
            Tone::Red => Some(Hue::Red),
            Tone::Green => Some(Hue::Green),
            Tone::Yellow => Some(Hue::Yellow),
            Tone::Blue => Some(Hue::Blue),
            Tone::Magenta => Some(Hue::Magenta),
            Tone::Cyan => Some(Hue::Cyan),
            Tone::BoldGreen => Some(Hue::Green),
        }
    }

    /// Whether a tone is set in bold.
    pub open spec fn is_bold(self) -> bool {
        self == Tone::BoldGreen
    }

    /// The colour of the tone; `Plain` has none.
    pub fn hue(self) -> (h: Option<Hue>)
        ensures
            h == self.hue_of(),
    {
        match self {
            Tone::Plain => None,
            Tone::Red => Some(Hue::Red),
            Tone::Green => Some(Hue::Green),
            Tone::Yellow => Some(Hue::Yellow),
            Tone::Blue => Some(Hue::Blue),
            Tone::Magenta => Some(Hue::Magenta),
            Tone::Cyan => Some(Hue::Cyan),
            Tone::BoldGreen => Some(Hue::Green),
        }
    }

    /// Whether the tone is set in bold.
    pub fn bold(self) -> (b: bool)
        ensures
            b == self.is_bold(),
    {
        match self {
            Tone::BoldGreen => true,
            _ => false,
        }
    }
}

/// A piece of text in one tone.
#[derive(Clone, Debug)]
pub struct Span {
    pub tone: Tone,
    pub text: String,
}

/// The model of a [`Span`]: its tone and its characters.
pub struct Styled {
    pub tone: Tone,
    pub text: Seq<char>,
}

impl View for Span {
    type V = Styled;

    open spec fn view(&self) -> Styled {
        Styled { tone: self.tone, text: self.text@ }
    }
}

impl DeepView for Span {
    type V = Styled;

    open spec fn deep_view(&self) -> Styled {
        self@
    }
}

/// One line of output: its spans from left to right.
#[derive(Clone, Debug)]
pub struct Line {
    pub spans: Vec<Span>,
}

impl View for Line {
    type V = Seq<Styled>;

    open spec fn view(&self) -> Seq<Styled> {
        self.spans.deep_view()
    }
}

impl DeepView for Line {
    type V = Seq<Styled>;

    open spec fn deep_view(&self) -> Seq<Styled> {
        self@
    }
}

/// A span of `text` in `tone`.
pub open spec fn styled(tone: Tone, text: Seq<char>) -> Styled {
    Styled { tone, text }
}

/// The characters of a line with the tones left out.
pub open spec fn plain_of(line: Seq<Styled>) -> Seq<char> {
    line.map_values(|s: Styled| s.text).flatten()
}

/// The character that opens every escape sequence of a terminal.
pub open spec fn escape() -> char {
    '\u{1b}'
}

/// The escape sequence that ends all colour and style.
pub open spec fn reset() -> Seq<char> {
    "\u{1b}[0m"@
}

/// `painted` is `text` in some colour or style: `text` itself where the
/// environment has colours switched off, else `text` between an escape
/// sequence that sets them and the one that resets them.
pub open spec fn is_tinted(text: Seq<char>, painted: Seq<char>) -> bool {
    painted == text || exists|prefix: Seq<char>| painted == prefix + text + reset()
}

/// `part` can be what painting `span` gives. A plain span is painted as its
/// own text. So is any other where colours are switched off; where they are
/// on, its text stands between the sequence that sets the tone and the one
/// that resets it. Of a text that holds escape sequences of its own nothing
/// is said.
pub open spec fn paints_as(span: Styled, part: Seq<char>) -> bool {
    if span.tone == Tone::Plain {
        part == span.text
    } else {
        !span.text.contains(escape()) ==> is_tinted(span.text, part)
    }
}

/// `parts` can be what painting `line` gives: one part for each span.
pub open spec fn painted_as(line: Seq<Styled>, parts: Seq<Seq<char>>) -> bool {
    &&& parts.len() == line.len()
    &&& forall|i: int| 0 <= i < line.len() ==> paints_as(#[trigger] line[i], parts[i])
}

/// `text` can be what painting `line` gives: the parts of its spans, from left
/// to right, with nothing between them.
pub open spec fn is_painting(line: Seq<Styled>, text: Seq<char>) -> bool {
    exists|parts: Seq<Seq<char>>| painted_as(line, parts) && text == parts.flatten()
}

/// `text` stands in `part` from position `at` on, whole and in one piece.
pub open spec fn stands_at(text: Seq<char>, part: Seq<char>, at: int) -> bool {
    0 <= at && at + text.len() <= part.len() && part.subrange(at, at + text.len()) == text
}

/// Painting never loses the text of a span: whatever the environment is, the
/// text of a span without escape sequences of its own stands in its part,
/// whole and in one piece.
pub proof fn lemma_painting_keeps_the_text(span: Styled, part: Seq<char>)
    requires
        paints_as(span, part),
        !span.text.contains(escape()),
    ensures
        exists|at: int| stands_at(span.text, part, at),
{
    if part == span.text {
        assert(part.subrange(0, 0int + span.text.len()) =~= span.text);
        assert(stands_at(span.text, part, 0));
    } else {
        let prefix = choose|prefix: Seq<char>| part == prefix + span.text + reset();
        let at = prefix.len() as int;
        assert(part.subrange(at, at + span.text.len()) =~= span.text);
        assert(stands_at(span.text, part, at));
    }
}

/// A line of plain spans is painted as its own text, whatever the
/// environment is.
pub proof fn lemma_plain_line_paints_as_itself(line: Seq<Styled>, text: Seq<char>)
    requires
        forall|i: int| 0 <= i < line.len() ==> (#[trigger] line[i]).tone == Tone::Plain,
        is_painting(line, text),
    ensures
        text == plain_of(line),
{
    let parts = choose|parts: Seq<Seq<char>>| painted_as(line, parts) && text == parts.flatten();
    assert(parts =~= line.map_values(|s: Styled| s.text));
}

impl Span {
    /// A span of `text` in `tone`.
    pub fn new(tone: Tone, text: &str) -> (s: Span)
        ensures
            s@ == styled(tone, text@),
    {
        Span { tone, text: String::from_str(text) }
    }

    /// A plain span of `text`.
    pub fn plain(text: &str) -> (s: Span)
        ensures
            s@ == styled(Tone::Plain, text@),
    {
        Span { tone: Tone::Plain, text: String::from_str(text) }
    }

    /// A plain span that takes over `text`.
    pub fn owned(text: String) -> (s: Span)
        ensures
            s@ == styled(Tone::Plain, text@),
    {
        Span { tone: Tone::Plain, text }
    }
}

impl Line {
    /// The empty line.
    pub fn blank() -> (l: Line)
        ensures
            l@ == Seq::<Styled>::empty(),
    {
        Line { spans: Vec::new() }
    }

    /// A line of one span.
    pub fn of(span: Span) -> (l: Line)
        ensures
            l@ == seq![span@],
    {
        let mut spans: Vec<Span> = Vec::new();
        spans.push(span);
        Line { spans }
    }

    /// Adds a span at the right end.
    pub fn push(&mut self, span: Span)
        ensures
            final(self)@ == old(self)@.push(span@),
    {
        self.spans.push(span);
    }

    /// The text of the line without its tones.
    pub fn plain_text(&self) -> (s: String)
        ensures
            s@ == plain_of(self@),
    {
        let mut out: String = String::new();
        let mut i: usize = 0;
        let ghost texts: Seq<Seq<char>> = self@.map_values(|s: Styled| s.text);
        while i < self.spans.len()
            invariant
                i <= self.spans.len(),
                texts == self@.map_values(|s: Styled| s.text),
                out@ == texts.take(i as int).flatten(),
            decreases self.spans.len() - i,
        {
            proof {
                texts.take(i as int).lemma_flatten_push(texts[i as int]);
                assert(texts.take(i as int + 1) =~= texts.take(i as int).push(texts[i as int]));
            }
            out.append(self.spans[i].text.as_str());
            i = i + 1;
        }
        assert(texts.take(i as int) =~= texts);
        out
    }
}

/// `colored::Colorize::color` on a string slice, shown through `to_string`:
/// `text` in the foreground colour `hue`. What `colored` writes depends on
/// the environment (`NO_COLOR`, `CLICOLOR`, `CLICOLOR_FORCE`, whether standard
/// output is a terminal, an override set by the program). With colours off
/// it writes the text as it is; with colours on, the sequence that sets the
/// colour, the text, and the reset sequence. It rewrites the text only where
/// the text holds a reset sequence itself.
#[verifier::external_body]
fn tinted(text: &str, hue: Hue) -> (painted: String)
    ensures
        !text@.contains(escape()) ==> is_tinted(text@, painted@),
{
    let color = match hue {
        Hue::Red => colored::Color::Red,
        Hue::Green => colored::Color::Green,
        Hue::Yellow => colored::Color::Yellow,
        Hue::Blue => colored::Color::Blue,
        Hue::Magenta => colored::Color::Magenta,
        Hue::Cyan => colored::Color::Cyan,
    };
    text.color(color).to_string()
}

/// `colored::Colorize::color` and then `colored::Colorize::bold`, shown
/// through `to_string`: `text` in bold and in the foreground colour `hue`.
/// The claim is that of `tinted`: the text as it is, or the text between the
/// sequence that sets style and colour and the reset sequence.
#[verifier::external_body]
fn tinted_bold(text: &str, hue: Hue) -> (painted: String)
    ensures
        !text@.contains(escape()) ==> is_tinted(text@, painted@),
{
    let color = match hue {
        Hue::Red => colored::Color::Red,
        Hue::Green => colored::Color::Green,
        Hue::Yellow => colored::Color::Yellow,
        Hue::Blue => colored::Color::Blue,
        Hue::Magenta => colored::Color::Magenta,
        Hue::Cyan => colored::Color::Cyan,
    };
    text.color(color).bold().to_string()
}

/// The characters that a terminal receives for one span.
pub fn paint_span(span: &Span) -> (s: String)
    ensures
        paints_as(span@, s@),
{
    match span.tone.hue() {
        None => span.text.clone(),
        Some(hue) => {
            if span.tone.bold() {
                tinted_bold(span.text.as_str(), hue)
            } else {
                tinted(span.text.as_str(), hue)
            }
        },
    }
}

/// The characters that a terminal receives for each span of a line.
pub fn paint_spans(line: &Line) -> (parts: Vec<String>)
    ensures
        painted_as(line@, parts.deep_view()),
{
    let mut parts: Vec<String> = Vec::new();
    let mut i: usize = 0;
    while i < line.spans.len()
        invariant
            i <= line.spans.len(),
            painted_as(line@.take(i as int), parts.deep_view()),
        decreases line.spans.len() - i,
    {
        let piece: String = paint_span(&line.spans[i]);
        parts.push(piece);
        i = i + 1;
    }
    assert(line@.take(i as int) =~= line@);
    parts
}

/// The characters that a terminal receives for a line: the painted spans from
/// left to right, with nothing between them.
pub fn paint(line: &Line) -> (s: String)
    ensures
        is_painting(line@, s@),
{
    let parts: Vec<String> = paint_spans(line);
    concat_all(&parts)
}

/// Paints each line of `lines`.
pub fn paint_all(lines: &Vec<Line>) -> (out: Vec<String>)
    ensures
        out.len() == lines.len(),
        forall|k: int| 0 <= k < lines.len() ==> is_painting(lines[k]@, #[trigger] out[k]@),
{
    let mut out: Vec<String> = Vec::new();
    let mut i: usize = 0;
    while i < lines.len()
        invariant
            i <= lines.len(),
            out.len() == i,
            forall|k: int| 0 <= k < i ==> is_painting(lines[k]@, #[trigger] out[k]@),
        decreases lines.len() - i,
    {
        let s: String = paint(&lines[i]);
        out.push(s);
        i = i + 1;
    }
    out
}

} // verus!
