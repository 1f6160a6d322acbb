//! The pass that points links between documents at the rendered pages.

use crate::context::RenderingContext;
use crate::error::RenderError;
use crate::event::{Event, EventView, Tag, TagView};
use crate::text::{ends_with, starts_with, without_last};
use vstd::prelude::*;
use vstd::string::StringExecFns;

verus! {

/// Whether `url` names something on this site: it starts with neither
/// `http://` nor `https://`.
pub open spec fn is_local(url: Seq<char>) -> bool {
    !"http://"@.is_prefix_of(url) && !"https://"@.is_prefix_of(url)
}

/// Where a link to `url` points once the site is rendered: a local `.md`
/// target has its extension replaced by `.html`, every other is unchanged.
pub open spec fn adjusted_url(url: Seq<char>) -> Seq<char> {
    if is_local(url) && ".md"@.is_suffix_of(url) {
        url.take(url.len() - ".md"@.len()) + ".html"@
    } else {
        url
    }
}

/// An event with its link target adjusted, where it opens a link.
pub open spec fn adjusted_event(event: EventView) -> EventView {
    match event {
        EventView::Start(TagView::Link { link_type, dest_url, title, id }) => EventView::Start(
            TagView::Link { link_type, dest_url: adjusted_url(dest_url), title, id },
        ),
        _ => event,
    }
}

/// The stream with every link target adjusted.
pub open spec fn link_adjust(events: Seq<EventView>) -> Seq<EventView> {
    events.map_values(|event: EventView| adjusted_event(event))
}

/// Where a link to `url` points once the site is rendered.
pub fn adjust_url(url: &str) -> (adjusted: String)
    ensures
        adjusted@ == adjusted_url(url@),
{
    let local = !starts_with(url, "http://") && !starts_with(url, "https://");
    if local && ends_with(url, ".md") {
        proof {
            reveal_strlit(".md");
        }
        let mut adjusted = without_last(url, 3);
        adjusted.append(".html");
        adjusted
    } else {
        String::from_str(url)
    }
}

/// Rewrites the target of every link to a local `.md` document to the `.html`
/// page it is rendered to. Links to other sites are left as they are.
pub fn link_adjust_pass(events: Vec<Event>, ctxt: &mut RenderingContext) -> (passed: Result<
    Vec<Event>,
    RenderError,
>)
    ensures
        passed matches Ok(out) && out.deep_view() == link_adjust(events.deep_view()),
        final(ctxt)@ == old(ctxt)@,
{
    let ghost before = events.deep_view();
    let mut events = events;
    let mut i: usize = 0;
    while i < events.len()
        invariant
            i <= events@.len(),
            events@.len() == before.len(),
            forall|j: int| 0 <= j < i ==> (#[trigger] events@[j])@ == adjusted_event(before[j]),
            forall|j: int| i <= j < events@.len() ==> (#[trigger] events@[j])@ == before[j],
        decreases events.len() - i,
    {
        let replacement = match &events[i] {
            Event::Start(Tag::Link { link_type, dest_url, title, id }) => Some(
                Event::Start(
                    Tag::Link {
                        link_type: *link_type,
                        dest_url: adjust_url(dest_url.as_str()),
                        title: title.clone(),
                        id: id.clone(),
                    },
                ),
            ),
            _ => None,
        };
        if let Some(event) = replacement {
            events[i] = event;
        }
        i += 1;
    }
    proof {
        assert(events.deep_view() =~= link_adjust(before));
    }
    Ok(events)
}

} // verus!
