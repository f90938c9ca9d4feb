use vstd::prelude::*;
use vstd::string::StringExecFns;
use crate::text::push_char;
use pulldown_cmark::{Event, Tag, TagEnd};

verus! {

/// An event of the Markdown parser, as the renderer tells them apart.
pub enum MdToken {
    Text(Seq<char>),
    ParagraphStart,
    ParagraphEnd,
    SoftBreak,
    HardBreak,
    Other,
}

/// An event of the Markdown parser, as the renderer tells them apart.
pub enum MarkdownEvent {
    Text(String),
    ParagraphStart,
    ParagraphEnd,
    SoftBreak,
    HardBreak,
    Other,
}

impl View for MarkdownEvent {
    type V = MdToken;

    open spec fn view(&self) -> MdToken {
        match self {
            MarkdownEvent::Text(t) => MdToken::Text(t@),
            MarkdownEvent::ParagraphStart => MdToken::ParagraphStart,
            MarkdownEvent::ParagraphEnd => MdToken::ParagraphEnd,
            MarkdownEvent::SoftBreak => MdToken::SoftBreak,
            MarkdownEvent::HardBreak => MdToken::HardBreak,
            MarkdownEvent::Other => MdToken::Other,
        }
    }
}

/// The events, in order, that the CommonMark parser of `pulldown-cmark`
/// yields for a text without extensions.
pub uninterp spec fn markdown_events(text: Seq<char>) -> Seq<MdToken>;

/// `pulldown_cmark::Parser::new` run over the whole text, each event
/// told apart as the renderer needs it.
#[verifier::external_body]
fn parse_markdown(text: &str) -> (res: Vec<MarkdownEvent>)
    ensures
        res@.map_values(|e: MarkdownEvent| e@) == markdown_events(text@),
{
    let mut out = Vec::new();
    for event in pulldown_cmark::Parser::new(text) {
        out.push(match event {
            Event::Text(t) => MarkdownEvent::Text(t.to_string()),
            Event::Start(Tag::Paragraph) => MarkdownEvent::ParagraphStart,
            Event::End(TagEnd::Paragraph) => MarkdownEvent::ParagraphEnd,
            Event::SoftBreak => MarkdownEvent::SoftBreak,
            Event::HardBreak => MarkdownEvent::HardBreak,
            _ => MarkdownEvent::Other,
        });
    }
    out
}

/// What one event adds to the plain text: its text, or a line break for
/// the start and end of a paragraph and for a break.
pub open spec fn token_text(t: MdToken) -> Seq<char> {
    match t {
        MdToken::Text(s) => s,
        MdToken::ParagraphStart | MdToken::ParagraphEnd | MdToken::SoftBreak
        | MdToken::HardBreak => seq!['\n'],
        MdToken::Other => Seq::empty(),
    }
}

/// The plain text of a sequence of events.
pub open spec fn rendered(tokens: Seq<MdToken>) -> Seq<char>
    decreases tokens.len(),
{
    if tokens.len() == 0 {
        Seq::empty()
    } else {
        rendered(tokens.drop_last()) + token_text(tokens.last())
    }
}

/// What each event adds to the plain text: a hard break and a soft break
/// each add one line break, as the start and the end of a paragraph do; a
/// text adds itself; any other event adds nothing. So the paragraph `x`,
/// hard break, `y` renders as a line break, `x`, a line break, `y` and a
/// line break.
pub proof fn events_render_as_text_and_breaks(t: Seq<MdToken>, x: Seq<char>, y: Seq<char>)
    ensures
        rendered(Seq::empty()) == Seq::<char>::empty(),
        rendered(t.push(MdToken::HardBreak)) == rendered(t) + seq!['\n'],
        rendered(t.push(MdToken::SoftBreak)) == rendered(t) + seq!['\n'],
        rendered(t.push(MdToken::ParagraphStart)) == rendered(t) + seq!['\n'],
        rendered(t.push(MdToken::ParagraphEnd)) == rendered(t) + seq!['\n'],
        rendered(t.push(MdToken::Text(x))) == rendered(t) + x,
        rendered(t.push(MdToken::Other)) == rendered(t),
        rendered(
            seq![
                MdToken::ParagraphStart,
                MdToken::Text(x),
                MdToken::HardBreak,
                MdToken::Text(y),
                MdToken::ParagraphEnd,
            ],
        ) == seq!['\n'] + x + seq!['\n'] + y + seq!['\n'],
{
    assert(t.push(MdToken::HardBreak).drop_last() =~= t);
    assert(t.push(MdToken::SoftBreak).drop_last() =~= t);
    assert(t.push(MdToken::ParagraphStart).drop_last() =~= t);
    assert(t.push(MdToken::ParagraphEnd).drop_last() =~= t);
    assert(t.push(MdToken::Text(x)).drop_last() =~= t);
    assert(t.push(MdToken::Other).drop_last() =~= t);
    let p = seq![
        MdToken::ParagraphStart,
        MdToken::Text(x),
        MdToken::HardBreak,
        MdToken::Text(y),
        MdToken::ParagraphEnd,
    ];
    let p1 = seq![MdToken::ParagraphStart];
    let p2 = p1.push(MdToken::Text(x));
    let p3 = p2.push(MdToken::HardBreak);
    let p4 = p3.push(MdToken::Text(y));
    assert(p4.push(MdToken::ParagraphEnd) =~= p);
    assert(p4.push(MdToken::ParagraphEnd).drop_last() =~= p4);
    assert(p4.drop_last() =~= p3);
    assert(p3.drop_last() =~= p2);
    assert(p2.drop_last() =~= p1);
    assert(p1.drop_last() =~= Seq::<MdToken>::empty());
    assert(rendered(Seq::<MdToken>::empty()) =~= Seq::<char>::empty());
    assert(p1.last() == MdToken::ParagraphStart);
    assert(rendered(p1) =~= Seq::<char>::empty() + seq!['\n']);
    assert(rendered(p1) =~= seq!['\n']);
    assert(rendered(p2) =~= seq!['\n'] + x);
    assert(rendered(p3) =~= seq!['\n'] + x + seq!['\n']);
    assert(rendered(p4) =~= seq!['\n'] + x + seq!['\n'] + y);
    assert(rendered(p) =~= seq!['\n'] + x + seq!['\n'] + y + seq!['\n']);
}

/// The plain text of parsed events.
pub fn render_events(events: &Vec<MarkdownEvent>) -> (res: String)
    ensures
        res@ == rendered(events@.map_values(|e: MarkdownEvent| e@)),
{
    let ghost tokens = events@.map_values(|e: MarkdownEvent| e@);
    let mut out = String::new();
    let n = events.len();
    for i in 0..n
        invariant
            n == events@.len(),
            tokens == events@.map_values(|e: MarkdownEvent| e@),
            out@ == rendered(tokens.take(i as int)),
    {
        assert(tokens.take(i + 1).drop_last() =~= tokens.take(i as int));
        assert(tokens.take(i + 1).last() == events@[i as int]@);
        match &events[i] {
            MarkdownEvent::Text(t) => out.append(t.as_str()),
            MarkdownEvent::ParagraphStart => push_char(&mut out, '\n'),
            MarkdownEvent::ParagraphEnd => push_char(&mut out, '\n'),
            MarkdownEvent::SoftBreak => push_char(&mut out, '\n'),
            MarkdownEvent::HardBreak => push_char(&mut out, '\n'),
            MarkdownEvent::Other => {},
        }
        assert(out@ =~= rendered(tokens.take(i + 1)));
    }
    assert(tokens.take(n as int) =~= tokens);
    out
}

/// The plain text of a Markdown description: the text of each element,
/// with a line break at the start and end of each paragraph and at each
/// break; everything else leaves nothing.
pub fn render_markdown(input: &str) -> (res: String)
    ensures
        res@ == rendered(markdown_events(input@)),
{
    let events = parse_markdown(input);
    render_events(&events)
}

} // verus!
