//! Finding the first text inside the first element of a kind: the search that
//! both the title and the front matter of a document are read by.

use crate::event::{Event, EventView, HeadingLevel, MetadataBlockKind, Tag, TagEnd, TagView};
use vstd::prelude::*;

verus! {

/// The kind of element that is searched.
#[derive(Clone, Copy, Debug, PartialEq, Eq, Structural)]
pub enum Region {
    /// A level-1 heading.
    Title,
    /// A YAML front-matter block.
    FrontMatter,
}

/// How far the search has come.
pub enum Search {
    /// No element of the kind has opened yet.
    Before,
    /// The first element of the kind has opened and held no text so far.
    Inside,
    /// The first text inside the element.
    Found(Seq<char>),
    /// The element closed without a text.
    Closed,
}

/// Whether `event` opens an element of the kind.
pub open spec fn opens(region: Region, event: EventView) -> bool {
    match region {
        Region::Title => event matches EventView::Start(
            TagView::Heading { level: HeadingLevel::H1, id, classes, attrs },
        ),
        Region::FrontMatter => event == EventView::Start(
            TagView::MetadataBlock(MetadataBlockKind::YamlStyle),
        ),
    }
}

/// Whether `event` closes an element of the kind.
pub open spec fn closes(region: Region, event: EventView) -> bool {
    match region {
        Region::Title => event == EventView::End(TagEnd::Heading(HeadingLevel::H1)),
        Region::FrontMatter => event == EventView::End(
            TagEnd::MetadataBlock(MetadataBlockKind::YamlStyle),
        ),
    }
}

/// The search after one more event.
pub open spec fn search_next(region: Region, search: Search, event: EventView) -> Search {
    match search {
        Search::Before => if opens(region, event) {
            Search::Inside
        } else {
            Search::Before
        },
        Search::Inside => if closes(region, event) {
            Search::Closed
        } else {
            match event {
                EventView::Text(text) => Search::Found(text),
                _ => Search::Inside,
            }
        },
        _ => search,
    }
}

/// The search after all of `events`.
pub open spec fn search(region: Region, events: Seq<EventView>) -> Search
    decreases events.len(),
{
    if events.len() == 0 {
        Search::Before
    } else {
        search_next(region, search(region, events.drop_last()), events.last())
    }
}

/// The first text inside the first element of the kind, where the element
/// exists and holds a text before it closes.
pub open spec fn first_text(region: Region, events: Seq<EventView>) -> Option<Seq<char>> {
    match search(region, events) {
        Search::Found(text) => Some(text),
        _ => None,
    }
}

fn is_opening(region: Region, event: &Event) -> (yes: bool)
    ensures
        yes == opens(region, event@),
{
    match region {
        Region::Title => match event {
            Event::Start(Tag::Heading { level, id, classes, attrs }) => *level == HeadingLevel::H1,
            _ => false,
        },
        Region::FrontMatter => match event {
            Event::Start(Tag::MetadataBlock(kind)) => *kind == MetadataBlockKind::YamlStyle,
            _ => false,
        },
    }
}

fn is_closing(region: Region, event: &Event) -> (yes: bool)
    ensures
        yes == closes(region, event@),
{
    match region {
        Region::Title => match event {
            Event::End(TagEnd::Heading(level)) => *level == HeadingLevel::H1,
            _ => false,
        },
        Region::FrontMatter => match event {
            Event::End(TagEnd::MetadataBlock(kind)) => *kind == MetadataBlockKind::YamlStyle,
            _ => false,
        },
    }
}

/// Finds the first text inside the first element of the kind.
pub fn find_first_text(region: Region, events: &Vec<Event>) -> (found: Option<&String>)
    ensures
        match first_text(region, events.deep_view()) {
            Some(text) => found matches Some(s) && s@ == text,
            None => found is None,
        },
{
    let ghost views = events.deep_view();
    let mut inside = false;
    let mut i: usize = 0;
    proof {
        assert(views.take(0) =~= Seq::empty());
    }
    while i < events.len()
        invariant
            i <= events@.len(),
            views == events.deep_view(),
            views.len() == events@.len(),
            search(region, views.take(i as int)) == if inside {
                Search::Inside
            } else {
                Search::Before
            },
        decreases events.len() - i,
    {
        proof {
            let next = views.take(i + 1);
            assert(next.drop_last() =~= views.take(i as int));
            assert(next.last() == events@[i as int]@);
        }
        let event = &events[i];
        if !inside {
            if is_opening(region, event) {
                inside = true;
            }
        } else if is_closing(region, event) {
            proof {
                lemma_search_settled(region, views, i + 1);
            }
            return None;
        } else {
            match event {
                Event::Text(text) => {
                    proof {
                        lemma_search_settled(region, views, i + 1);
                    }
                    return Some(text);
                },
                _ => {},
            }
        }
        i += 1;
    }
    proof {
        assert(views.take(i as int) =~= views);
    }
    None
}

/// Once the search has found a text or seen the element close, later events
/// do not change it.
proof fn lemma_search_settled(region: Region, events: Seq<EventView>, n: int)
    requires
        0 <= n <= events.len(),
        search(region, events.take(n)) is Found || search(region, events.take(n)) is Closed,
    ensures
        search(region, events) == search(region, events.take(n)),
    decreases events.len() - n,
{
    if n == events.len() {
        assert(events.take(n) =~= events);
    } else {
        let next = events.take(n + 1);
        assert(next.drop_last() =~= events.take(n));
        lemma_search_settled(region, events, n + 1);
    }
}

} // verus!
