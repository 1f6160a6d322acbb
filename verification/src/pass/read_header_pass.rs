//! The pass that reads the front matter of a document into the context.
//!
//! The front matter is a YAML block at the start of the document. This pass
//! finds its text and merges the header that was read from it; turning the
//! text into a [`YamlHeader`] is the caller's part.

use crate::context::{Flag, RenderingContext, RenderingContextView};
use crate::error::{absent_header_message, RenderError};
use crate::event::{Event, EventView};
use crate::pass::first_text::{find_first_text, first_text, Region};
use crate::pass::highlight_code_pass::{HighlightRule, HighlightRuleView};
use vstd::prelude::*;
use vstd::string::StringExecFns;

verus! {

/// The front matter of a document.
#[derive(Clone, Debug, PartialEq, Eq)]
pub struct YamlHeader {
    /// The date the document was created.
    pub create_date: String,
    /// The date the document was last updated.
    pub last_update_date: String,
    /// The document's tags.
    pub tags: Vec<String>,
    /// The document's flags.
    pub flags: Vec<Flag>,
    /// The password that encrypts this page, in place of the site's.
    pub password: Option<String>,
    /// The rules that mark up the document's code blocks, in order.
    pub highlights: Option<Vec<HighlightRule>>,
}

/// The mathematical value of a [`YamlHeader`].
pub struct YamlHeaderView {
    pub create_date: Seq<char>,
    pub last_update_date: Seq<char>,
    pub tags: Seq<Seq<char>>,
    pub flags: Seq<Flag>,
    pub password: Option<Seq<char>>,
    pub highlights: Option<Seq<HighlightRuleView>>,
}

impl View for YamlHeader {
    type V = YamlHeaderView;

    open spec fn view(&self) -> YamlHeaderView {
        YamlHeaderView {
            create_date: self.create_date@,
            last_update_date: self.last_update_date@,
            tags: self.tags.deep_view(),
            flags: self.flags.deep_view(),
            password: self.password.deep_view(),
            highlights: self.highlights.deep_view(),
        }
    }
}

/// The context with a header merged into it: dates, tags and flags are set;
/// the password and the highlight rules are set where the header gives them
/// and kept otherwise.
pub open spec fn merged(header: YamlHeaderView, ctxt: RenderingContextView) -> RenderingContextView {
    RenderingContextView {
        create_date: Some(header.create_date),
        last_update_date: Some(header.last_update_date),
        tags: Some(header.tags),
        flags: Some(header.flags),
        password: if header.password is Some {
            header.password
        } else {
            ctxt.password
        },
        highlights: if header.highlights is Some {
            header.highlights
        } else {
            ctxt.highlights
        },
        ..ctxt
    }
}

impl YamlHeader {
    /// Writes the header into the context.
    pub fn merge_into(self, ctxt: &mut RenderingContext)
        ensures
            final(ctxt)@ == merged(self@, old(ctxt)@),
    {
        ctxt.set_create_date(self.create_date);
        ctxt.set_last_update_date(self.last_update_date);
        ctxt.set_tags(self.tags);
        ctxt.set_flags(self.flags);
        match self.highlights {
            Some(rules) => {
                ctxt.set_highlights(rules);
            },
            None => {},
        }
        match self.password {
            Some(password) => {
                ctxt.set_password(password);
            },
            None => {},
        }
    }
}

/// The text of the document's front matter: the first text inside its first
/// YAML metadata block.
pub open spec fn header_source(events: Seq<EventView>) -> Option<Seq<char>> {
    first_text(Region::FrontMatter, events)
}

/// The text of the document's front matter, where it has one.
pub fn header_text(events: &Vec<Event>) -> (source: Option<&String>)
    ensures
        match header_source(events.deep_view()) {
            Some(text) => source matches Some(s) && s@ == text,
            None => source is None,
        },
{
    find_first_text(Region::FrontMatter, events)
}

/// Merges the document's front matter into the context. `parsed` is what
/// reading the text of the front matter as YAML gave: the header, or why the
/// text is no header.
///
/// Fails with `HeaderParseError` where the document has no front matter,
/// whatever `parsed` holds, and where the front matter could not be read. The
/// context changes only on success. The stream stays as it is.
pub fn read_header_pass(
    events: Vec<Event>,
    ctxt: &mut RenderingContext,
    parsed: Result<YamlHeader, String>,
) -> (passed: Result<Vec<Event>, RenderError>)
    ensures
        match (header_source(events.deep_view()), parsed) {
            (None, _) => passed matches Err(RenderError::HeaderParseError(reason)) && reason@
                == absent_header_message() && final(ctxt)@ == old(ctxt)@,
            (Some(_), Err(why)) => passed matches Err(RenderError::HeaderParseError(reason))
                && reason@ == why@ && final(ctxt)@ == old(ctxt)@,
            (Some(_), Ok(header)) => passed matches Ok(out) && out == events && final(ctxt)@
                == merged(header@, old(ctxt)@),
        },
{
    if header_text(&events).is_none() {
        return Err(RenderError::HeaderParseError(String::from_str("Yaml header is not existing.")));
    }
    match parsed {
        Ok(header) => {
            header.merge_into(ctxt);
            Ok(events)
        },
        Err(why) => Err(RenderError::HeaderParseError(why)),
    }
}

/// Whether the document is a draft that is not to be rendered: it carries the
/// `Draft` flag and drafts were not asked for.
pub open spec fn suppressed(flags: Seq<Flag>, render_draft: bool) -> bool {
    !render_draft && flags.contains(Flag::Draft)
}

/// Decides, once the header is read, whether rendering of the document stops
/// here: it does for a draft unless drafts are rendered. To stop is no error.
/// Fails where the flags are unset.
pub fn is_suppressed_draft(ctxt: &RenderingContext, render_draft: bool) -> (decided: Result<
    bool,
    RenderError,
>)
    ensures
        match ctxt@.flags {
            Some(flags) => decided == Ok::<bool, RenderError>(suppressed(flags, render_draft)),
            None => decided == Err::<bool, RenderError>(
                RenderError::MissingRequiredField(crate::error::Field::Flags),
            ),
        },
{
    match ctxt.flags() {
        Ok(flags) => {
            proof {
                assert(flags.deep_view() =~= flags@);
            }
            Ok(!render_draft && crate::context::has_flag(flags, Flag::Draft))
        },
        Err(error) => Err(error),
    }
}

} // verus!
