//! The pass that replaces inline images by `<figure>` markup.

use crate::context::RenderingContext;
use crate::error::RenderError;
use crate::event::{Event, EventView, LinkType, Tag, TagEnd, TagView};
use crate::text::ends_with;
use vstd::prelude::*;
use vstd::string::StringExecFns;

verus! {

/// ` name="value"` where there is a value, nothing where there is none.
pub open spec fn attribute(name: Seq<char>, value: Option<Seq<char>>) -> Seq<char> {
    match value {
        Some(text) => " "@ + name + "=\""@ + text + "\""@,
        None => Seq::empty(),
    }
}

/// The element that shows an image: an `<object>` for an SVG, a lazily loaded
/// `<img>` with its alternative text and title for any other.
pub open spec fn image_tag(url: Seq<char>, alt: Option<Seq<char>>, title: Option<Seq<char>>) -> Seq<
    char,
> {
    if ".svg"@.is_suffix_of(url) {
        "<object type=\"image/svg+xml\" data=\""@ + url + "\"></object>"@
    } else {
        "<img loading=\"lazy\" src=\""@ + url + "\""@ + attribute("alt"@, alt) + attribute(
            "title"@,
            title,
        ) + "/>"@
    }
}

/// The caption of a figure: the image's alternative text, where it has one.
pub open spec fn figcaption(alt: Option<Seq<char>>) -> Seq<char> {
    match alt {
        Some(text) => "<figcaption>"@ + text + "</figcaption>"@,
        None => Seq::empty(),
    }
}

/// The figure of an image: the image in a scrollable container, then its
/// caption.
pub open spec fn figure(url: Seq<char>, alt: Option<Seq<char>>, title: Option<Seq<char>>) -> Seq<
    char,
> {
    "<figure><div class=\"zakki-scroll\">"@ + image_tag(url, alt, title) + "</div>"@ + figcaption(
        alt,
    ) + "</figure>"@
}

/// What the pass remembers of the inline image it is inside of.
pub struct ImageState {
    pub url: Option<Seq<char>>,
    pub title: Option<Seq<char>>,
    pub alt: Option<Seq<char>>,
}

/// The state outside any inline image.
pub open spec fn no_image() -> ImageState {
    ImageState { url: None, title: None, alt: None }
}

/// The state after one event. The opening of an inline image is remembered
/// with its target and title; a text inside one becomes its alternative text;
/// its closing forgets it.
pub open spec fn image_next(state: ImageState, event: EventView) -> ImageState {
    match event {
        EventView::Start(TagView::Image { link_type: LinkType::Inline, dest_url, title, id }) => {
            ImageState { url: Some(dest_url), title: Some(title), alt: state.alt }
        },
        EventView::Text(text) => if state.url is Some {
            ImageState { alt: Some(text), ..state }
        } else {
            state
        },
        EventView::End(TagEnd::Image) => if state.url is Some {
            no_image()
        } else {
            state
        },
        _ => state,
    }
}

/// What one event leaves in the stream: nothing for the opening of an inline
/// image and for a text inside one, the figure for its closing, itself
/// otherwise.
pub open spec fn image_emit(state: ImageState, event: EventView) -> Seq<EventView> {
    match event {
        EventView::Start(TagView::Image { link_type: LinkType::Inline, dest_url, title, id }) => {
            Seq::empty()
        },
        EventView::Text(text) => if state.url is Some {
            Seq::empty()
        } else {
            seq![event]
        },
        EventView::End(TagEnd::Image) => if state.url is Some {
            seq![EventView::Html(figure(state.url->0, state.alt, state.title))]
        } else {
            seq![event]
        },
        _ => seq![event],
    }
}

/// The state after all of `events`.
pub open spec fn image_state(events: Seq<EventView>) -> ImageState
    decreases events.len(),
{
    if events.len() == 0 {
        no_image()
    } else {
        image_next(image_state(events.drop_last()), events.last())
    }
}

/// The stream with every inline image replaced by its figure.
pub open spec fn image_convert(events: Seq<EventView>) -> Seq<EventView>
    decreases events.len(),
{
    if events.len() == 0 {
        Seq::empty()
    } else {
        image_convert(events.drop_last()) + image_emit(
            image_state(events.drop_last()),
            events.last(),
        )
    }
}

fn push_attribute(html: &mut String, name: &str, value: &Option<String>)
    ensures
        final(html)@ == old(html)@ + attribute(name@, value.deep_view()),
{
    match value {
        Some(text) => {
            html.append(" ");
            html.append(name);
            html.append("=\"");
            html.append(text.as_str());
            html.append("\"");
            proof {
                assert(html@ =~= old(html)@ + attribute(name@, value.deep_view()));
            }
        },
        None => {
            proof {
                assert(html@ =~= old(html)@ + attribute(name@, value.deep_view()));
            }
        },
    }
}

/// The figure of an image with target `url`, alternative text `alt` and title
/// `title`.
pub fn make_figure(url: &str, alt: &Option<String>, title: &Option<String>) -> (html: String)
    ensures
        html@ == figure(url@, alt.deep_view(), title.deep_view()),
{
    let mut tag = String::new();
    if ends_with(url, ".svg") {
        tag.append("<object type=\"image/svg+xml\" data=\"");
        tag.append(url);
        tag.append("\"></object>");
    } else {
        tag.append("<img loading=\"lazy\" src=\"");
        tag.append(url);
        tag.append("\"");
        push_attribute(&mut tag, "alt", alt);
        push_attribute(&mut tag, "title", title);
        tag.append("/>");
    }
    proof {
        assert(tag@ =~= image_tag(url@, alt.deep_view(), title.deep_view()));
    }
    let mut html = String::from_str("<figure><div class=\"zakki-scroll\">");
    html.append(tag.as_str());
    html.append("</div>");
    match alt {
        Some(text) => {
            html.append("<figcaption>");
            html.append(text.as_str());
            html.append("</figcaption>");
        },
        None => {},
    }
    html.append("</figure>");
    proof {
        assert(html@ =~= figure(url@, alt.deep_view(), title.deep_view()));
    }
    html
}

/// Replaces every inline image by a `<figure>`: the image itself, an
/// `<object>` for an SVG and a lazily loaded `<img>` otherwise, and a caption
/// made of its alternative text. Images written by reference stay as they
/// are.
pub fn image_convert_pass(events: Vec<Event>, ctxt: &mut RenderingContext) -> (passed: Result<
    Vec<Event>,
    RenderError,
>)
    ensures
        passed matches Ok(out) && out.deep_view() == image_convert(events.deep_view()),
        final(ctxt)@ == old(ctxt)@,
{
    let ghost before = events.deep_view();
    let mut url: Option<String> = None;
    let mut title: Option<String> = None;
    let mut alt: Option<String> = None;
    let mut out: Vec<Event> = Vec::new();
    proof {
        assert(before.take(0) =~= Seq::empty());
        assert(out.deep_view() =~= Seq::empty());
    }
    for event in it: events.into_iter()
        invariant
            it.seq() == events@,
            before == events.deep_view(),
            out.deep_view() == image_convert(before.take(it.index())),
            image_state(before.take(it.index())) == (ImageState {
                url: url.deep_view(),
                title: title.deep_view(),
                alt: alt.deep_view(),
            }),
    {
        let ghost head = out.deep_view();
        let ghost state = image_state(before.take(it.index()));
        proof {
            let next = before.take(it.index() + 1);
            assert(next.drop_last() =~= before.take(it.index()));
            assert(next.last() == event@);
        }
        match event {
            Event::Start(Tag::Image { link_type: LinkType::Inline, dest_url, title: t, id }) => {
                url = Some(dest_url);
                title = Some(t);
                proof {
                    assert(head + image_emit(state, event@) =~= head);
                }
            },
            Event::Text(text) if url.is_some() => {
                alt = Some(text);
                proof {
                    assert(head + image_emit(state, event@) =~= head);
                }
            },
            Event::End(TagEnd::Image) if url.is_some() => {
                let html = match &url {
                    Some(target) => make_figure(target.as_str(), &alt, &title),
                    None => String::new(),
                };
                url = None;
                title = None;
                alt = None;
                out.push(Event::Html(html));
                proof {
                    assert(out.deep_view() =~= head + image_emit(state, event@));
                }
            },
            other => {
                out.push(other);
                proof {
                    assert(out.deep_view() =~= head + image_emit(state, event@));
                }
            },
        }
    }
    proof {
        assert(before.take(before.len() as int) =~= before);
    }
    Ok(out)
}

} // verus!
