//! The pass that makes tables scrollable.

use crate::context::RenderingContext;
use crate::error::RenderError;
use crate::event::{Event, EventView, Tag, TagEnd, TagView};
use vstd::prelude::*;
use vstd::string::StringExecFns;

verus! {

/// The raw HTML that opens the container of a table.
pub open spec fn wrapper_open() -> EventView {
    EventView::InlineHtml("<div class=\"table-wrapper\">"@)
}

/// The raw HTML that closes the container of a table.
pub open spec fn wrapper_close() -> EventView {
    EventView::InlineHtml("</div>"@)
}

/// What one event becomes: the opening of a table is preceded by the opening
/// of its container, its closing is followed by the container's closing,
/// every other event stays alone.
pub open spec fn table_wrapped(event: EventView) -> Seq<EventView> {
    match event {
        EventView::Start(TagView::Table(_)) => seq![wrapper_open(), event],
        EventView::End(TagEnd::Table) => seq![event, wrapper_close()],
        _ => seq![event],
    }
}

/// The stream with every table inside a container.
pub open spec fn table_wrap(events: Seq<EventView>) -> Seq<EventView>
    decreases events.len(),
{
    if events.len() == 0 {
        Seq::empty()
    } else {
        table_wrap(events.drop_last()) + table_wrapped(events.last())
    }
}

/// Encloses every table in a `<div class="table-wrapper">`, which scrolls
/// where the table is wider than the page.
pub fn table_wrapper_pass(events: Vec<Event>, ctxt: &mut RenderingContext) -> (passed: Result<
    Vec<Event>,
    RenderError,
>)
    ensures
        passed matches Ok(out) && out.deep_view() == table_wrap(events.deep_view()),
        final(ctxt)@ == old(ctxt)@,
{
    let ghost before = events.deep_view();
    let mut out: Vec<Event> = Vec::new();
    proof {
        assert(before.take(0) =~= Seq::empty());
        assert(out.deep_view() =~= Seq::empty());
    }
    for event in it: events.into_iter()
        invariant
            it.seq() == events@,
            before == events.deep_view(),
            out.deep_view() == table_wrap(before.take(it.index())),
    {
        let ghost head = out.deep_view();
        proof {
            let next = before.take(it.index() + 1);
            assert(next.drop_last() =~= before.take(it.index()));
            assert(next.last() == event@);
        }
        match event {
            Event::Start(Tag::Table(alignments)) => {
                out.push(Event::InlineHtml(String::from_str("<div class=\"table-wrapper\">")));
                out.push(Event::Start(Tag::Table(alignments)));
            },
            Event::End(TagEnd::Table) => {
                out.push(Event::End(TagEnd::Table));
                out.push(Event::InlineHtml(String::from_str("</div>")));
            },
            other => {
                out.push(other);
            },
        }
        proof {
            assert(out.deep_view() =~= head + table_wrapped(event@));
        }
    }
    proof {
        assert(before.take(before.len() as int) =~= before);
    }
    Ok(out)
}

} // verus!
