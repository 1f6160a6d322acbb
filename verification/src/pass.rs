//! The passes over a document's event stream, and the pipeline that runs them
//! in order.

pub mod assign_header_id;
pub mod convert_math_pass;
pub mod first_text;
pub mod get_title_pass;
pub mod highlight_code_pass;
pub mod image_convert_pass;
pub mod link_adjust_pass;
pub mod read_header_pass;
pub mod table_wrapper_pass;
pub mod toc_pass;

use crate::context::{RenderingContext, RenderingContextView};
use crate::error::RenderError;
use crate::event::{Event, EventView};
use assign_header_id::{assign_header_id, assign_ids};
use convert_math_pass::{convert_math, convert_math_pass, with_math_stylesheet};
use get_title_pass::{get_title_pass, title_of};
use highlight_code_pass::{highlight_code, highlight_code_pass};
use image_convert_pass::{image_convert, image_convert_pass};
use link_adjust_pass::{link_adjust, link_adjust_pass};
use table_wrapper_pass::{table_wrap, table_wrapper_pass};
use toc_pass::{toc_of, toc_pass};
use vstd::prelude::*;

verus! {

/// One of the passes that run after the front matter is read.
#[derive(Clone, Copy, Debug, PartialEq, Eq, Structural)]
pub enum Pass {
    GetTitle,
    LinkAdjust,
    ConvertImage,
    ConvertMath,
    HighlightCode,
    AssignHeaderId,
    TableWrapper,
    TocBuild,
}

/// Where a document stands between two passes: its stream, or the text of the
/// error that stopped it, and its context.
pub struct Progress {
    pub events: Result<Seq<EventView>, Seq<char>>,
    pub ctxt: RenderingContextView,
}

/// What one pass makes of a stream and a context.
pub open spec fn apply_pass(pass: Pass, events: Seq<EventView>, ctxt: RenderingContextView) -> Progress {
    match pass {
        Pass::GetTitle => Progress {
            events: Ok(events),
            ctxt: RenderingContextView { title: Some(title_of(events)), ..ctxt },
        },
        Pass::LinkAdjust => Progress { events: Ok(link_adjust(events)), ctxt },
        Pass::ConvertImage => Progress { events: Ok(image_convert(events)), ctxt },
        Pass::ConvertMath => match convert_math(events) {
            Ok(converted) => Progress {
                events: Ok(converted),
                ctxt: with_math_stylesheet(ctxt, events),
            },
            Err(reason) => Progress { events: Err(reason), ctxt },
        },
        Pass::HighlightCode => Progress { events: Ok(highlight_code(ctxt.highlights, events)), ctxt },
        Pass::AssignHeaderId => Progress { events: Ok(assign_ids(events)), ctxt },
        Pass::TableWrapper => Progress { events: Ok(table_wrap(events)), ctxt },
        Pass::TocBuild => Progress {
            events: Ok(events),
            ctxt: RenderingContextView { toc: Some(toc_of(events)), ..ctxt },
        },
    }
}

/// What a list of passes makes of a stream and a context: each pass works on
/// what the one before it left, and the first failure ends the run.
pub open spec fn apply_passes(
    passes: Seq<Pass>,
    events: Seq<EventView>,
    ctxt: RenderingContextView,
) -> Progress
    decreases passes.len(),
{
    if passes.len() == 0 {
        Progress { events: Ok(events), ctxt }
    } else {
        let sofar = apply_passes(passes.drop_last(), events, ctxt);
        match sofar.events {
            Ok(stream) => apply_pass(passes.last(), stream, sofar.ctxt),
            Err(_) => sofar,
        }
    }
}

/// The passes of a document in the order in which they run.
pub open spec fn standard_passes() -> Seq<Pass> {
    seq![
        Pass::GetTitle,
        Pass::LinkAdjust,
        Pass::ConvertImage,
        Pass::ConvertMath,
        Pass::HighlightCode,
        Pass::AssignHeaderId,
        Pass::TableWrapper,
        Pass::TocBuild,
    ]
}

/// Whether an outcome is the one that `progress` describes.
pub open spec fn is_outcome(
    progress: Progress,
    passed: Result<Vec<Event>, RenderError>,
    ctxt: RenderingContextView,
) -> bool {
    &&& ctxt == progress.ctxt
    &&& match progress.events {
        Ok(stream) => passed matches Ok(out) && out.deep_view() == stream,
        Err(reason) => passed matches Err(RenderError::MathRenderError(text)) && text@ == reason,
    }
}

/// Runs one pass.
pub fn run_pass(pass: Pass, events: Vec<Event>, ctxt: &mut RenderingContext) -> (passed: Result<
    Vec<Event>,
    RenderError,
>)
    ensures
        is_outcome(apply_pass(pass, events.deep_view(), old(ctxt)@), passed, final(ctxt)@),
{
    match pass {
        Pass::GetTitle => get_title_pass(events, ctxt),
        Pass::LinkAdjust => link_adjust_pass(events, ctxt),
        Pass::ConvertImage => image_convert_pass(events, ctxt),
        Pass::ConvertMath => convert_math_pass(events, ctxt),
        Pass::HighlightCode => highlight_code_pass(events, ctxt),
        Pass::AssignHeaderId => assign_header_id(events, ctxt),
        Pass::TableWrapper => table_wrapper_pass(events, ctxt),
        Pass::TocBuild => toc_pass(events, ctxt),
    }
}

/// An ordered list of passes.
pub struct PassManager(Vec<Pass>);

impl View for PassManager {
    type V = Seq<Pass>;

    closed spec fn view(&self) -> Seq<Pass> {
        self.0@
    }
}

impl PassManager {
    /// A manager with no passes.
    pub fn new() -> (manager: Self)
        ensures
            manager@ == Seq::<Pass>::empty(),
    {
        Self(Vec::new())
    }

    /// The manager of a document: every pass, in the order in which the passes
    /// depend on each other.
    pub fn standard() -> (manager: Self)
        ensures
            manager@ == standard_passes(),
    {
        let mut manager = Self::new();
        manager.register(Pass::GetTitle);
        manager.register(Pass::LinkAdjust);
        manager.register(Pass::ConvertImage);
        manager.register(Pass::ConvertMath);
        manager.register(Pass::HighlightCode);
        manager.register(Pass::AssignHeaderId);
        manager.register(Pass::TableWrapper);
        manager.register(Pass::TocBuild);
        proof {
            assert(manager@ =~= standard_passes());
        }
        manager
    }

    /// Adds a pass behind those registered so far.
    pub fn register(&mut self, pass: Pass)
        ensures
            final(self)@ == old(self)@.push(pass),
    {
        self.0.push(pass);
    }

    /// Runs the passes in registration order, each on the stream the one
    /// before it returned. The first pass that fails ends the run with its
    /// error; the context then holds what the passes before it wrote.
    pub fn run(&self, events: Vec<Event>, ctxt: &mut RenderingContext) -> (passed: Result<
        Vec<Event>,
        RenderError,
    >)
        ensures
            is_outcome(apply_passes(self@, events.deep_view(), old(ctxt)@), passed, final(ctxt)@),
    {
        let ghost before = events.deep_view();
        let mut stream = events;
        let mut i: usize = 0;
        proof {
            assert(self@.take(0) =~= Seq::empty());
        }
        while i < self.0.len()
            invariant
                i <= self@.len(),
                self@ == self.0@,
                before == events.deep_view(),
                apply_passes(self@.take(i as int), before, old(ctxt)@) == (Progress {
                    events: Ok(stream.deep_view()),
                    ctxt: ctxt@,
                }),
            decreases self.0.len() - i,
        {
            proof {
                let next = self@.take(i + 1);
                assert(next.drop_last() =~= self@.take(i as int));
                assert(next.last() == self@[i as int]);
            }
            match run_pass(self.0[i], stream, ctxt) {
                Ok(out) => {
                    stream = out;
                },
                Err(error) => {
                    proof {
                        lemma_failure_ends_run(self@, before, old(ctxt)@, i + 1);
                    }
                    return Err(error);
                },
            }
            i += 1;
        }
        proof {
            assert(self@.take(i as int) =~= self@);
        }
        Ok(stream)
    }
}

/// Once a prefix of the passes has failed, the whole list gives that failure.
proof fn lemma_failure_ends_run(
    passes: Seq<Pass>,
    events: Seq<EventView>,
    ctxt: RenderingContextView,
    n: int,
)
    requires
        0 <= n <= passes.len(),
        apply_passes(passes.take(n), events, ctxt).events is Err,
    ensures
        apply_passes(passes, events, ctxt) == apply_passes(passes.take(n), events, ctxt),
    decreases passes.len() - n,
{
    if n == passes.len() {
        assert(passes.take(n) =~= passes);
    } else {
        let next = passes.take(n + 1);
        assert(next.drop_last() =~= passes.take(n));
        lemma_failure_ends_run(passes, events, ctxt, n + 1);
    }
}

} // verus!
