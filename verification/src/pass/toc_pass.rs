//! The pass that collects a page's headings into its table of contents.

use crate::context::{RenderingContext, RenderingContextView};
use crate::error::RenderError;
use crate::event::{Event, EventView, Tag, TagView};
use toc::{TocBuilder, TocItemView};
use vstd::prelude::*;

pub mod toc;

verus! {

/// What the pass has seen so far: the entries collected, and the heading that
/// is open and still without a text.
pub struct TocScan {
    /// The level and id of the open heading.
    pub pending: Option<(nat, Seq<char>)>,
    /// The entries collected, in document order.
    pub items: Seq<TocItemView>,
}

/// The id of a heading as the table of contents links it: the heading's id, or
/// the empty id where it has none.
pub open spec fn link_id(id: Option<Seq<char>>) -> Seq<char> {
    match id {
        Some(text) => text,
        None => Seq::empty(),
    }
}

/// The scan after one more event. A heading below the title opens an entry one
/// level up from its own; the next text becomes the title of the entry.
pub open spec fn toc_next(scan: TocScan, event: EventView) -> TocScan {
    match event {
        EventView::Start(TagView::Heading { level, id, classes, attrs }) => if level.spec_number()
            >= 2 {
            TocScan {
                pending: Some(((level.spec_number() - 1) as nat, link_id(id))),
                items: scan.items,
            }
        } else {
            scan
        },
        EventView::Text(title) => match scan.pending {
            Some((level, id)) => TocScan {
                pending: None,
                items: scan.items.push(TocItemView { title, id, level }),
            },
            None => scan,
        },
        _ => scan,
    }
}

/// The scan after all of `events`.
pub open spec fn toc_scan(events: Seq<EventView>) -> TocScan
    decreases events.len(),
{
    if events.len() == 0 {
        TocScan { pending: None, items: Seq::empty() }
    } else {
        toc_next(toc_scan(events.drop_last()), events.last())
    }
}

/// The entries of the table of contents of a stream: one for each heading of
/// level 2 or deeper that holds a text, with the heading's id and its level
/// counted from the title.
pub open spec fn toc_of(events: Seq<EventView>) -> Seq<TocItemView> {
    toc_scan(events).items
}

/// Collects the headings of level 2 and deeper, each with its id and its first
/// text, into the context's table of contents. The stream stays as it is.
pub fn toc_pass(events: Vec<Event>, ctxt: &mut RenderingContext) -> (passed: Result<
    Vec<Event>,
    RenderError,
>)
    ensures
        passed matches Ok(out) && out == events,
        final(ctxt)@ == (RenderingContextView {
            toc: Some(toc_of(events.deep_view())),
            ..old(ctxt)@
        }),
{
    let ghost views = events.deep_view();
    let mut pending: Option<(usize, String)> = None;
    let mut builder = TocBuilder::new();
    let mut i: usize = 0;
    proof {
        assert(views.take(0) =~= Seq::empty());
    }
    while i < events.len()
        invariant
            i <= events@.len(),
            views == events.deep_view(),
            views.len() == events@.len(),
            toc_scan(views.take(i as int)).items == builder@,
            match toc_scan(views.take(i as int)).pending {
                Some((level, id)) => pending matches Some((l, text)) && l == level && text@ == id,
                None => pending is None,
            },
        decreases events.len() - i,
    {
        proof {
            let next = views.take(i + 1);
            assert(next.drop_last() =~= views.take(i as int));
            assert(next.last() == events@[i as int]@);
        }
        match &events[i] {
            Event::Start(Tag::Heading { level, id, classes, attrs }) => {
                let number = level.number();
                if number >= 2 {
                    let anchor = match id {
                        Some(text) => text.clone(),
                        None => String::new(),
                    };
                    pending = Some((number - 1, anchor));
                }
            },
            Event::Text(title) => {
                match pending {
                    Some((level, id)) => {
                        builder.add_item(title.clone(), id, level);
                        pending = None;
                    },
                    None => {},
                }
            },
            _ => {},
        }
        i += 1;
    }
    proof {
        assert(views.take(i as int) =~= views);
    }
    ctxt.set_toc(builder.build());
    Ok(events)
}

} // verus!
