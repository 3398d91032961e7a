//! Coloured text for the terminal.
//!
//! What the shell prints is made of spans: a piece of text and the tone it is
//! shown in. The shell's logic decides on spans only. Turning a span into the
//! characters that a terminal understands is the work of the `colored` crate,
//! which also decides, from the environment and from whether the output is a
//! terminal, if any colour is used at all. So a span has two possible
//! renderings, and this module promises one of the two; it takes for granted
//! that no other thread switches the override of `colored` while a span is
//! being rendered.

use colored::Colorize;
use vstd::prelude::*;

verus! {

/// The tones in which the shell shows text.
#[derive(Clone, Copy, Debug, PartialEq, Eq, Structural)]
pub enum Tone {
    /// No colour: the text as it is.
    Plain,
    /// Green letters.
    Green,
    /// Red letters.
    Red,
    /// Bold red letters.
    RedBold,
    /// Yellow letters.
    Yellow,
    /// A yellow background.
    OnYellow,
    /// Black letters on a yellow background.
    BlackOnYellow,
}

/// A piece of text and the tone to show it in.
#[derive(Clone, Debug, PartialEq, Eq)]
pub struct Span {
    pub tone: Tone,
    pub text: String,
}

/// A span as a mathematical value.
pub struct SpanView {
    pub tone: Tone,
    pub text: Seq<char>,
}

impl View for Span {
    type V = SpanView;

    open spec fn view(&self) -> SpanView {
        SpanView { tone: self.tone, text: self.text@ }
    }
}

impl DeepView for Span {
    type V = SpanView;

    open spec fn deep_view(&self) -> SpanView {
        self@
    }
}

/// The span of `text` in `tone`.
pub open spec fn span(tone: Tone, text: Seq<char>) -> SpanView {
    SpanView { tone, text }
}

impl Span {
    /// A span of `text` in `tone`.
    pub fn new(tone: Tone, text: &str) -> (made: Span)
        ensures
            made@ == span(tone, text@),
    {
        Span { tone, text: text.to_owned() }
    }
}

/// The escape sequence that selects the graphic rendition `codes`.
pub open spec fn escape(codes: Seq<char>) -> Seq<char> {
    seq!['\u{1b}', '['] + codes + seq!['m']
}

/// The escape sequence that ends every graphic rendition.
pub open spec fn reset() -> Seq<char> {
    seq!['\u{1b}', '[', '0', 'm']
}

/// `text` with `style` put behind each reset sequence in it, so that a reset
/// inside the text does not end the style of the whole.
pub open spec fn restyled(text: Seq<char>, style: Seq<char>) -> Seq<char>
    decreases text.len(),
{
    if text.len() == 0 {
        text
    } else if text.len() >= 4 && text.take(4) == reset() {
        reset() + style + restyled(text.skip(4), style)
    } else {
        seq![text[0]] + restyled(text.drop_first(), style)
    }
}

/// `text` between the escape sequence for `codes` and a reset.
pub open spec fn styled(text: Seq<char>, codes: Seq<char>) -> Seq<char> {
    escape(codes) + restyled(text, escape(codes)) + reset()
}

/// The parameters of the escape sequence for `tone`.
pub open spec fn codes(tone: Tone) -> Seq<char> {
    match tone {
        Tone::Plain => Seq::empty(),
        Tone::Green => "32"@,
        Tone::Red => "31"@,
        Tone::RedBold => "1;31"@,
        Tone::Yellow => "33"@,
        Tone::OnYellow => "43"@,
        Tone::BlackOnYellow => "43;30"@,
    }
}

/// Whether `out` shows `text` in `tone`: as it is where no colour is used, and
/// styled otherwise. Plain text is always shown as it is.
pub open spec fn shows(tone: Tone, text: Seq<char>, out: Seq<char>) -> bool {
    out == text || (tone != Tone::Plain && out == styled(text, codes(tone)))
}

/// Whether `out` shows the spans of `line` one after the other.
pub open spec fn renders(line: Seq<SpanView>, out: Seq<char>) -> bool {
    exists|pieces: Seq<Seq<char>>|
        {
            &&& pieces.len() == line.len()
            &&& forall|i: int|
                0 <= i < line.len() ==> shows(line[i].tone, line[i].text, #[trigger] pieces[i])
            &&& out == pieces.flatten()
        }
}

/// The texts of the spans of `line`, one after the other.
pub open spec fn text_of(line: Seq<SpanView>) -> Seq<char> {
    line.map_values(|s: SpanView| s.text).flatten()
}

/// A line of plain spans is shown as its text, and as nothing else.
pub proof fn lemma_plain_line_renders_as_text(line: Seq<SpanView>, out: Seq<char>)
    requires
        forall|i: int| 0 <= i < line.len() ==> (#[trigger] line[i]).tone == Tone::Plain,
    ensures
        renders(line, out) <==> out == text_of(line),
{
    let texts = line.map_values(|s: SpanView| s.text);
    if renders(line, out) {
        let pieces = choose|pieces: Seq<Seq<char>>|
            {
                &&& pieces.len() == line.len()
                &&& forall|i: int|
                    0 <= i < line.len() ==> shows(line[i].tone, line[i].text, #[trigger] pieces[i])
                &&& out == pieces.flatten()
            };
        assert(pieces =~= texts);
    }
    if out == text_of(line) {
        assert forall|i: int| 0 <= i < line.len() implies shows(
            line[i].tone,
            line[i].text,
            #[trigger] texts[i],
        ) by {}
    }
}

/// `Colorize::green` of `colored`, rendered through the `Display` of the
/// `ColoredString` it returns. Where `colored` uses colour the result is the
/// text between `ESC[32m` and the reset, else the text itself.
#[verifier::external_body]
fn green(text: &str) -> (out: String)
    ensures
        out@ == text@ || out@ == styled(text@, "32"@),
{
    format!("{}", text.green())
}

/// `Colorize::red` of `colored`, rendered through the `Display` of the
/// `ColoredString` it returns. Where `colored` uses colour the result is the
/// text between `ESC[31m` and the reset, else the text itself.
#[verifier::external_body]
fn red(text: &str) -> (out: String)
    ensures
        out@ == text@ || out@ == styled(text@, "31"@),
{
    format!("{}", text.red())
}

/// `Colorize::red` and then `Colorize::bold` of `colored`, rendered through
/// the `Display` of the `ColoredString` they return. `colored` writes the
/// style in front of the colour, so where it uses colour the result is the
/// text between `ESC[1;31m` and the reset, else the text itself.
#[verifier::external_body]
fn red_bold(text: &str) -> (out: String)
    ensures
        out@ == text@ || out@ == styled(text@, "1;31"@),
{
    format!("{}", text.red().bold())
}

/// `Colorize::yellow` of `colored`, rendered through the `Display` of the
/// `ColoredString` it returns. Where `colored` uses colour the result is the
/// text between `ESC[33m` and the reset, else the text itself.
#[verifier::external_body]
fn yellow(text: &str) -> (out: String)
    ensures
        out@ == text@ || out@ == styled(text@, "33"@),
{
    format!("{}", text.yellow())
}

/// `Colorize::on_yellow` of `colored`, rendered through the `Display` of the
/// `ColoredString` it returns. Where `colored` uses colour the result is the
/// text between `ESC[43m` and the reset, else the text itself.
#[verifier::external_body]
fn on_yellow(text: &str) -> (out: String)
    ensures
        out@ == text@ || out@ == styled(text@, "43"@),
{
    format!("{}", text.on_yellow())
}

/// `Colorize::black` and then `Colorize::on_yellow` of `colored`, rendered
/// through the `Display` of the `ColoredString` they return. `colored` writes
/// the background in front of the foreground, so where it uses colour the
/// result is the text between `ESC[43;30m` and the reset, else the text itself.
#[verifier::external_body]
fn black_on_yellow(text: &str) -> (out: String)
    ensures
        out@ == text@ || out@ == styled(text@, "43;30"@),
{
    format!("{}", text.black().on_yellow())
}

/// The characters that show `text` in `tone` on a terminal.
pub fn paint(tone: Tone, text: &str) -> (out: String)
    ensures
        shows(tone, text@, out@),
{
    match tone {
        Tone::Plain => text.to_owned(),
        Tone::Green => green(text),
        Tone::Red => red(text),
        Tone::RedBold => red_bold(text),
        Tone::Yellow => yellow(text),
        Tone::OnYellow => on_yellow(text),
        Tone::BlackOnYellow => black_on_yellow(text),
    }
}

/// The strings of `pieces`, one after the other.
pub fn join(pieces: &Vec<String>) -> (out: String)
    ensures
        out@ == pieces.deep_view().flatten(),
{
    let mut out = String::new();
    let mut i: usize = 0;
    while i < pieces.len()
        invariant
            i <= pieces.len(),
            out@ == pieces.deep_view().take(i as int).flatten(),
        decreases pieces.len() - i,
    {
        out.append(pieces[i].as_str());
        proof {
            let done = pieces.deep_view().take(i as int);
            done.lemma_flatten_push(pieces@[i as int]@);
            assert(pieces.deep_view().take(i + 1) == done.push(pieces@[i as int]@));
        }
        i = i + 1;
    }
    assert(pieces.deep_view().take(i as int) == pieces.deep_view());
    out
}

/// The characters that show a line of spans on a terminal: what [`paint`]
/// gives for each span, in the order of the spans.
pub fn render(line: &Vec<Span>) -> (out: String)
    ensures
        renders(line.deep_view(), out@),
{
    let mut pieces: Vec<String> = Vec::new();
    let mut i: usize = 0;
    while i < line.len()
        invariant
            i <= line.len(),
            pieces.len() == i,
            forall|k: int|
                0 <= k < i ==> shows(line@[k].tone, line@[k].text@, (#[trigger] pieces@[k])@),
        decreases line.len() - i,
    {
        let piece = paint(line[i].tone, line[i].text.as_str());
        pieces.push(piece);
        i = i + 1;
    }
    let out = join(&pieces);
    assert(renders(line.deep_view(), out@)) by {
        let shown = pieces.deep_view();
        assert forall|k: int| 0 <= k < line.deep_view().len() implies shows(
            line.deep_view()[k].tone,
            line.deep_view()[k].text,
            #[trigger] shown[k],
        ) by {}
    }
    out
}

} // verus!
