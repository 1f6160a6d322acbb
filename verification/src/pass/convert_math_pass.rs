//! The pass that renders the formulas of a document to HTML.

use crate::context::{RenderingContext, RenderingContextView};
use crate::error::RenderError;
use crate::event::{Event, EventView};
use vstd::prelude::*;
use vstd::string::StringExecFns;

verus! {

/// What KaTeX makes of a formula, set inline or on a line of its own: the HTML
/// that shows it, or the message with which it rejects the formula.
pub uninterp spec fn katex_html(latex: Seq<char>, display: bool) -> Result<Seq<char>, Seq<char>>;

/// Renders `latex` with `katex::render_with_opts`, the options asking for HTML
/// output in display mode or not. Believed, not proved: the outcome is a
/// function of the formula and the mode alone; an error of the renderer is
/// handed on as its message.
#[verifier::external_body]
fn render_math(latex: &str, display: bool) -> (rendered: Result<String, String>)
    ensures
        match katex_html(latex@, display) {
            Ok(html) => rendered matches Ok(text) && text@ == html,
            Err(message) => rendered matches Err(text) && text@ == message,
        },
{
    let opts = katex::Opts::builder()
        .output_type(katex::OutputType::Html)
        .display_mode(display)
        .build()
        .unwrap();
    katex::render_with_opts(latex, &opts).map_err(|error| error.to_string())
}

/// The stylesheet a page with formulas needs.
pub open spec fn math_stylesheet() -> Seq<char> {
    "katex/katex.min.css"@
}

/// The text of the error for a formula the renderer rejected.
pub open spec fn math_failure(latex: Seq<char>, display: bool, message: Seq<char>) -> Seq<char> {
    let kind = if display {
        "display math: "@
    } else {
        "inline math: "@
    };
    kind + latex + ": "@ + message
}

/// What a formula becomes, given what the renderer made of it: raw inline
/// HTML, or the error text.
pub open spec fn spec_math_replacement(
    latex: Seq<char>,
    display: bool,
    rendered: Result<Seq<char>, Seq<char>>,
) -> Result<EventView, Seq<char>> {
    match rendered {
        Ok(html) => Ok(EventView::InlineHtml(html)),
        Err(message) => Err(math_failure(latex, display, message)),
    }
}

/// Whether an event is a formula.
pub open spec fn is_math(event: EventView) -> bool {
    event is InlineMath || event is DisplayMath
}

/// What one event becomes: a formula is replaced by its rendering, every other
/// event stays.
pub open spec fn math_event(event: EventView) -> Result<EventView, Seq<char>> {
    match event {
        EventView::InlineMath(latex) => spec_math_replacement(
            latex,
            false,
            katex_html(latex, false),
        ),
        EventView::DisplayMath(latex) => spec_math_replacement(latex, true, katex_html(latex, true)),
        _ => Ok(event),
    }
}

/// The stream with every formula rendered, or the error text of the first
/// formula that the renderer rejects.
pub open spec fn convert_math(events: Seq<EventView>) -> Result<Seq<EventView>, Seq<char>>
    decreases events.len(),
{
    if events.len() == 0 {
        Ok(Seq::empty())
    } else {
        match convert_math(events.drop_last()) {
            Err(reason) => Err(reason),
            Ok(head) => match math_event(events.last()) {
                Ok(event) => Ok(head.push(event)),
                Err(reason) => Err(reason),
            },
        }
    }
}

/// Whether the stream holds a formula.
pub open spec fn has_math(events: Seq<EventView>) -> bool {
    exists|i: int| 0 <= i < events.len() && is_math(#[trigger] events[i])
}

/// The context after the pass: one more stylesheet where the stream held a
/// formula.
pub open spec fn with_math_stylesheet(
    ctxt: RenderingContextView,
    events: Seq<EventView>,
) -> RenderingContextView {
    if has_math(events) {
        RenderingContextView { css_paths: ctxt.css_paths.push(math_stylesheet()), ..ctxt }
    } else {
        ctxt
    }
}

/// What a formula becomes, given what the renderer made of it.
pub fn math_replacement(latex: &str, display: bool, rendered: Result<String, String>) -> (replaced:
    Result<Event, RenderError>)
    ensures
        match spec_math_replacement(
            latex@,
            display,
            match rendered {
                Ok(html) => Ok(html@),
                Err(message) => Err(message@),
            },
        ) {
            Ok(event) => replaced matches Ok(e) && e@ == event,
            Err(reason) => replaced matches Err(RenderError::MathRenderError(text)) && text@
                == reason,
        },
{
    match rendered {
        Ok(html) => Ok(Event::InlineHtml(html)),
        Err(message) => {
            let mut reason = if display {
                String::from_str("display math: ")
            } else {
                String::from_str("inline math: ")
            };
            reason.append(latex);
            reason.append(": ");
            reason.append(message.as_str());
            Err(RenderError::MathRenderError(reason))
        },
    }
}

/// Replaces every inline and display formula by the HTML that KaTeX renders it
/// to, and asks for the KaTeX stylesheet where it rendered any. Fails on the
/// first formula that KaTeX rejects, leaving the context as it was.
pub fn convert_math_pass(events: Vec<Event>, ctxt: &mut RenderingContext) -> (passed: Result<
    Vec<Event>,
    RenderError,
>)
    ensures
        match convert_math(events.deep_view()) {
            Ok(converted) => passed matches Ok(out) && out.deep_view() == converted && final(ctxt)@
                == with_math_stylesheet(old(ctxt)@, events.deep_view()),
            Err(reason) => passed matches Err(RenderError::MathRenderError(text)) && text@ == reason
                && final(ctxt)@ == old(ctxt)@,
        },
{
    let ghost before = events.deep_view();
    let mut stream = events;
    let mut math_used = false;
    let mut i: usize = 0;
    proof {
        assert(before.take(0) =~= Seq::empty());
        assert(stream.deep_view().take(0) =~= Seq::empty());
    }
    while i < stream.len()
        invariant
            before == events.deep_view(),
            i <= stream@.len(),
            stream@.len() == before.len(),
            convert_math(before.take(i as int)) == Ok::<Seq<EventView>, Seq<char>>(
                stream.deep_view().take(i as int),
            ),
            forall|j: int| i <= j < stream@.len() ==> (#[trigger] stream@[j])@ == before[j],
            math_used == has_math(before.take(i as int)),
            ctxt@ == old(ctxt)@,
        decreases stream.len() - i,
    {
        let ghost head = stream.deep_view().take(i as int);
        proof {
            let next = before.take(i + 1);
            assert(next.drop_last() =~= before.take(i as int));
            assert(next.last() == before[i as int]);
            assert(stream@[i as int]@ == before[i as int]);
            assert(convert_math(next) == match math_event(before[i as int]) {
                Ok(event) => Ok::<Seq<EventView>, Seq<char>>(head.push(event)),
                Err(reason) => Err(reason),
            });
            assert(has_math(next) <==> has_math(before.take(i as int)) || is_math(
                before[i as int],
            )) by {
                if has_math(next) {
                    let k = choose|k: int| 0 <= k < next.len() && is_math(#[trigger] next[k]);
                    if k < i {
                        assert(is_math(before.take(i as int)[k]));
                    }
                }
                if has_math(before.take(i as int)) {
                    let k = choose|k: int|
                        0 <= k < i && is_math(#[trigger] before.take(i as int)[k]);
                    assert(is_math(next[k]));
                }
                if is_math(before[i as int]) {
                    assert(is_math(next[i as int]));
                }
            }
        }
        let replacement = match &stream[i] {
            Event::InlineMath(latex) => {
                let rendered = render_math(latex.as_str(), false);
                Some(math_replacement(latex.as_str(), false, rendered))
            },
            Event::DisplayMath(latex) => {
                let rendered = render_math(latex.as_str(), true);
                Some(math_replacement(latex.as_str(), true, rendered))
            },
            _ => None,
        };
        match replacement {
            Some(Ok(event)) => {
                stream[i] = event;
                math_used = true;
            },
            Some(Err(error)) => {
                proof {
                    lemma_failure_stays(before, i + 1);
                }
                return Err(error);
            },
            None => {},
        }
        proof {
            assert(stream.deep_view().take(i + 1) =~= head.push(stream@[i as int]@));
        }
        i += 1;
    }
    proof {
        assert(before.take(i as int) =~= before);
        assert(stream.deep_view().take(i as int) =~= stream.deep_view());
    }
    if math_used {
        ctxt.push_css_path(String::from_str("katex/katex.min.css"));
    }
    Ok(stream)
}

/// Once a prefix of the stream fails, the whole stream fails with the same
/// error.
proof fn lemma_failure_stays(events: Seq<EventView>, n: int)
    requires
        0 <= n <= events.len(),
        convert_math(events.take(n)) is Err,
    ensures
        convert_math(events) == convert_math(events.take(n)),
    decreases events.len() - n,
{
    if n == events.len() {
        assert(events.take(n) =~= events);
    } else {
        let next = events.take(n + 1);
        assert(next.drop_last() =~= events.take(n));
        lemma_failure_stays(events, n + 1);
    }
}

} // verus!
