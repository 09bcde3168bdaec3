//! Mapping Markdown structural events to Typst markup.
//!
//! The transcoder is a pure fold over a flat event stream: each event maps
//! to a fixed piece of markup (or to nothing), and a stream maps to the
//! concatenation of its events' pieces.  The stream is produced by an
//! external Markdown parser; every start event is matched by an end event
//! of the same kind, properly nested, and the transcoder relies on that
//! discipline instead of re-validating it.

use vstd::prelude::*;
use vstd::string::*;

verus! {

/// Markdown heading depth, one of six levels.
#[derive(Clone, Copy, Debug, PartialEq, Eq)]
pub enum HeadingLevel {
    H1,
    H2,
    H3,
    H4,
    H5,
    H6,
}

/// The number, 1 to 6, of a heading level.
pub open spec fn heading_number(level: HeadingLevel) -> u8 {
    match level {
        HeadingLevel::H1 => 1,
        HeadingLevel::H2 => 2,
        HeadingLevel::H3 => 3,
        HeadingLevel::H4 => 4,
        HeadingLevel::H5 => 5,
        HeadingLevel::H6 => 6,
    }
}

/// The number, 1 to 6, of a heading level.
pub fn heading_level_to_u8(level: HeadingLevel) -> (n: u8)
    ensures
        n == heading_number(level),
{
    match level {
        HeadingLevel::H1 => 1,
        HeadingLevel::H2 => 2,
        HeadingLevel::H3 => 3,
        HeadingLevel::H4 => 4,
        HeadingLevel::H5 => 5,
        HeadingLevel::H6 => 6,
    }
}

/// A Markdown structural event, as handed over by the external parser.
///
/// `Other` stands for every event kind outside the recognised set; such
/// events produce no output.
#[derive(Debug)]
pub enum MdEvent {
    HeadingStart(HeadingLevel),
    HeadingEnd,
    ParagraphStart,
    ParagraphEnd,
    Text(String),
    SoftBreak,
    ListStart,
    ListEnd,
    ItemStart,
    ItemEnd,
    EmphasisStart,
    EmphasisEnd,
    StrongStart,
    StrongEnd,
    Rule,
    Code(String),
    CodeBlockStart,
    CodeBlockEnd,
    Other,
}

/// The markup that opens a heading of the given level.
pub open spec fn heading_open(level: HeadingLevel) -> Seq<char> {
    match level {
        HeadingLevel::H1 => "#heading(level: 1)["@,
        HeadingLevel::H2 => "#heading(level: 2)["@,
        HeadingLevel::H3 => "#heading(level: 3)["@,
        HeadingLevel::H4 => "#heading(level: 4)["@,
        HeadingLevel::H5 => "#heading(level: 5)["@,
        HeadingLevel::H6 => "#heading(level: 6)["@,
    }
}

/// The markup emitted for one event.  Text and inline-code content passes
/// through verbatim, with no escaping of markup-significant characters.
pub open spec fn event_markup(event: MdEvent) -> Seq<char> {
    match event {
        MdEvent::HeadingStart(level) => heading_open(level),
        MdEvent::HeadingEnd => "]\n\n"@,
        MdEvent::ParagraphStart => Seq::<char>::empty(),
        MdEvent::ParagraphEnd => "\n\n"@,
        MdEvent::Text(s) => s@,
        MdEvent::SoftBreak => "\n"@,
        MdEvent::ListStart => Seq::<char>::empty(),
        MdEvent::ListEnd => "\n"@,
        MdEvent::ItemStart => "- "@,
        MdEvent::ItemEnd => "\n"@,
        MdEvent::EmphasisStart => "#emph["@,
        MdEvent::EmphasisEnd => "]"@,
        MdEvent::StrongStart => "#strong["@,
        MdEvent::StrongEnd => "]"@,
        MdEvent::Rule => "#line(length: 100%)\n\n"@,
        MdEvent::Code(s) => "#raw(\""@ + s@ + "\")"@,
        MdEvent::CodeBlockStart => "```\n"@,
        MdEvent::CodeBlockEnd => "```\n\n"@,
        MdEvent::Other => Seq::<char>::empty(),
    }
}

/// The markup emitted for a whole event stream: the concatenation, in
/// order, of each event's markup.
pub open spec fn events_markup(events: Seq<MdEvent>) -> Seq<char>
    decreases events.len(),
{
    if events.len() == 0 {
        Seq::<char>::empty()
    } else {
        events_markup(events.drop_last()) + event_markup(events.last())
    }
}

/// Appends the markup for one event to the sink.
pub fn render_event(out: &mut String, event: &MdEvent)
    ensures
        final(out)@ == old(out)@ + event_markup(*event),
{
    match event {
        MdEvent::HeadingStart(level) => {
            match level {
                HeadingLevel::H1 => out.append("#heading(level: 1)["),
                HeadingLevel::H2 => out.append("#heading(level: 2)["),
                HeadingLevel::H3 => out.append("#heading(level: 3)["),
                HeadingLevel::H4 => out.append("#heading(level: 4)["),
                HeadingLevel::H5 => out.append("#heading(level: 5)["),
                HeadingLevel::H6 => out.append("#heading(level: 6)["),
            }
        }
        MdEvent::HeadingEnd => out.append("]\n\n"),
        MdEvent::ParagraphStart => {
            proof {
                assert(old(out)@ + event_markup(*event) =~= old(out)@);
            }
        }
        MdEvent::ParagraphEnd => out.append("\n\n"),
        MdEvent::Text(s) => out.append(s.as_str()),
        MdEvent::SoftBreak => out.append("\n"),
        MdEvent::ListStart => {
            proof {
                assert(old(out)@ + event_markup(*event) =~= old(out)@);
            }
        }
        MdEvent::ListEnd => out.append("\n"),
        MdEvent::ItemStart => out.append("- "),
        MdEvent::ItemEnd => out.append("\n"),
        MdEvent::EmphasisStart => out.append("#emph["),
        MdEvent::EmphasisEnd => out.append("]"),
        MdEvent::StrongStart => out.append("#strong["),
        MdEvent::StrongEnd => out.append("]"),
        MdEvent::Rule => out.append("#line(length: 100%)\n\n"),
        MdEvent::Code(s) => {
            out.append("#raw(\"");
            out.append(s.as_str());
            out.append("\")");
            proof {
                assert(out@ =~= old(out)@ + event_markup(*event));
            }
        }
        MdEvent::CodeBlockStart => out.append("```\n"),
        MdEvent::CodeBlockEnd => out.append("```\n\n"),
        MdEvent::Other => {
            proof {
                assert(old(out)@ + event_markup(*event) =~= old(out)@);
            }
        }
    }
}

/// Appends the markup for a whole event stream to the sink, one event at
/// a time, in order.
#[verifier::loop_isolation(false)]
pub fn render_events(out: &mut String, events: &Vec<MdEvent>)
    ensures
        final(out)@ == old(out)@ + events_markup(events@),
{
    let mut i: usize = 0;
    while i < events.len()
        invariant
            i <= events.len(),
            out@ == old(out)@ + events_markup(events@.take(i as int)),
        decreases events.len() - i,
    {
        render_event(out, &events[i]);
        proof {
            assert(events@.take(i as int + 1).drop_last() =~= events@.take(i as int));
            assert(events@.take(i as int + 1).last() == events@[i as int]);
            assert(out@ =~= old(out)@ + events_markup(events@.take(i as int + 1)));
        }
        i = i + 1;
    }
    proof {
        assert(events@.take(events@.len() as int) =~= events@);
    }
}

/// A stream consisting solely of events outside the recognised set
/// produces no output at all.
pub proof fn lemma_ignored_events_silent(events: Seq<MdEvent>)
    requires
        forall|i: int| 0 <= i < events.len() ==> events[i] is Other,
    ensures
        events_markup(events) == Seq::<char>::empty(),
    decreases events.len(),
{
    if events.len() > 0 {
        assert(events[events.len() - 1] is Other);
        lemma_ignored_events_silent(events.drop_last());
        assert(events_markup(events) =~= Seq::<char>::empty());
    } else {
        assert(events_markup(events) =~= Seq::<char>::empty());
    }
}

} // verus!
