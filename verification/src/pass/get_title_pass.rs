//! The pass that reads the title of a document.

use crate::context::{RenderingContext, RenderingContextView};
use crate::error::RenderError;
use crate::event::{Event, EventView};
use crate::pass::first_text::{find_first_text, first_text, Region};
use vstd::prelude::*;
use vstd::string::StringExecFns;

verus! {

/// The title of a document that has none of its own.
pub const DEFAULT_TITLE: &'static str = "Untitled";

/// The title of a document: the first text of its first level-1 heading, or
/// the default where it has none.
pub open spec fn title_of(events: Seq<EventView>) -> Seq<char> {
    match first_text(Region::Title, events) {
        Some(text) => text,
        None => DEFAULT_TITLE@,
    }
}

/// Sets the context's title to the first text of the first level-1 heading. A
/// document without such a text gets the default title. The stream stays as it
/// is.
pub fn get_title_pass(events: Vec<Event>, ctxt: &mut RenderingContext) -> (passed: Result<
    Vec<Event>,
    RenderError,
>)
    ensures
        passed matches Ok(out) && out == events,
        final(ctxt)@ == (RenderingContextView {
            title: Some(title_of(events.deep_view())),
            ..old(ctxt)@
        }),
{
    let title = match find_first_text(Region::Title, &events) {
        Some(text) => text.clone(),
        None => String::from_str(DEFAULT_TITLE),
    };
    ctxt.set_title(title);
    Ok(events)
}

} // verus!
