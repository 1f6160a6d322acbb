//! The pass that prepares the text of fenced code blocks: it escapes the text
//! for HTML and then marks up what the document's highlight rules match.

use crate::context::RenderingContext;
use crate::error::RenderError;
use crate::event::{CodeBlockKindView, Event, EventView, CodeBlockKind, Tag, TagEnd, TagView};
use crate::text::{escape_html, spec_escape_html};
use vstd::prelude::*;
use vstd::string::StringExecFns;

verus! {

/// A rule that wraps what stands between two delimiters in a styled `<span>`.
/// The delimiters are regular expressions.
#[derive(Clone, Debug, PartialEq, Eq)]
pub struct HighlightRule {
    pub delim: [String; 2],
    pub style: String,
}

/// The mathematical value of a [`HighlightRule`].
pub struct HighlightRuleView {
    pub open: Seq<char>,
    pub close: Seq<char>,
    pub style: Seq<char>,
}

impl View for HighlightRule {
    type V = HighlightRuleView;

    open spec fn view(&self) -> HighlightRuleView {
        HighlightRuleView {
            open: self.delim@[0]@,
            close: self.delim@[1]@,
            style: self.style@,
        }
    }
}

impl DeepView for HighlightRule {
    type V = HighlightRuleView;

    open spec fn deep_view(&self) -> HighlightRuleView {
        self@
    }
}

/// What the `regex` crate makes of a pattern, a text and a replacement: the
/// text with every match of the pattern replaced, or `None` where the pattern
/// does not compile.
pub uninterp spec fn regex_replace_all(
    pattern: Seq<char>,
    haystack: Seq<char>,
    replacement: Seq<char>,
) -> Option<Seq<char>>;

/// Compiles `pattern` with `regex::Regex::new` and rewrites `haystack` with
/// `Regex::replace_all`, in which `$1` in `replacement` stands for the first
/// capture group. Believed, not proved: the result is a function of the three
/// texts alone, and it is `None` exactly where `Regex::new` returns an error.
#[verifier::external_body]
fn replace_all_matches(pattern: &str, haystack: &str, replacement: &str) -> (rewritten: Option<
    String,
>)
    ensures
        rewritten.deep_view() == regex_replace_all(pattern@, haystack@, replacement@),
{
    match regex::Regex::new(pattern) {
        Ok(regex) => Some(regex.replace_all(haystack, replacement).into_owned()),
        Err(_) => None,
    }
}

/// The pattern of a rule: its opening delimiter, the shortest run of any
/// characters as the first capture group, its closing delimiter.
pub open spec fn rule_pattern(rule: HighlightRuleView) -> Seq<char> {
    rule.open + "(.*?)"@ + rule.close
}

/// The replacement of a rule: the captured run inside a `<span>` of the rule's
/// style.
pub open spec fn rule_replacement(rule: HighlightRuleView) -> Seq<char> {
    "<span style=\""@ + rule.style + "\">$1</span>"@
}

/// The rewritten text where there is one, else the code as it was.
pub open spec fn spec_rewritten_or(code: Seq<char>, rewritten: Option<Seq<char>>) -> Seq<char> {
    match rewritten {
        Some(text) => text,
        None => code,
    }
}

/// `code` after one rule: rewritten by the rule's pattern and replacement, or
/// unchanged where the pattern does not compile.
pub open spec fn apply_rule(rule: HighlightRuleView, code: Seq<char>) -> Seq<char> {
    spec_rewritten_or(code, regex_replace_all(rule_pattern(rule), code, rule_replacement(rule)))
}

/// `code` after every rule in order, each working on what the one before it
/// produced.
pub open spec fn apply_rules(rules: Seq<HighlightRuleView>, code: Seq<char>) -> Seq<char>
    decreases rules.len(),
{
    if rules.len() == 0 {
        code
    } else {
        apply_rule(rules.last(), apply_rules(rules.drop_last(), code))
    }
}

/// The text of a fenced code block as the page shows it: escaped, then marked
/// up by every rule in order.
pub open spec fn highlighted(rules: Seq<HighlightRuleView>, code: Seq<char>) -> Seq<char> {
    apply_rules(rules, spec_escape_html(code))
}

/// The rewritten text where there is one, else the code as it was.
pub fn rewritten_or(code: &str, rewritten: Option<String>) -> (text: String)
    ensures
        text@ == spec_rewritten_or(code@, rewritten.deep_view()),
{
    match rewritten {
        Some(text) => text,
        None => String::from_str(code),
    }
}

impl HighlightRule {
    /// Wraps every match of the rule in `code` in a `<span>` of the rule's
    /// style. A rule whose delimiters do not form a regular expression leaves
    /// the code as it is.
    pub fn replace_all(&self, code: &str) -> (text: String)
        ensures
            text@ == apply_rule(self@, code@),
    {
        let mut pattern = String::from_str(self.delim[0].as_str());
        pattern.append("(.*?)");
        pattern.append(self.delim[1].as_str());
        let mut replacement = String::from_str("<span style=\"");
        replacement.append(self.style.as_str());
        replacement.append("\">$1</span>");
        let rewritten = replace_all_matches(pattern.as_str(), code, replacement.as_str());
        rewritten_or(code, rewritten)
    }
}

/// Applies every rule in order, each to what the one before it produced.
pub fn apply_all(rules: &Vec<HighlightRule>, code: String) -> (text: String)
    ensures
        text@ == apply_rules(rules.deep_view(), code@),
{
    let mut text = code;
    let mut i: usize = 0;
    let ghost views = rules.deep_view();
    while i < rules.len()
        invariant
            i <= rules@.len(),
            views == rules.deep_view(),
            views.len() == rules@.len(),
            text@ == apply_rules(views.take(i as int), code@),
        decreases rules.len() - i,
    {
        proof {
            let next = views.take(i + 1);
            assert(next.drop_last() =~= views.take(i as int));
            assert(next.last() == rules@[i as int]@);
        }
        text = rules[i].replace_all(text.as_str());
        i += 1;
    }
    proof {
        assert(views.take(i as int) =~= views);
    }
    text
}

/// Whether the stream is inside a fenced code block after `event`, given
/// whether it was before.
pub open spec fn in_code_next(inside: bool, event: EventView) -> bool {
    match event {
        EventView::Start(TagView::CodeBlock(CodeBlockKindView::Fenced(_))) => true,
        EventView::End(TagEnd::CodeBlock) => false,
        _ => inside,
    }
}

/// Whether the stream is inside a fenced code block after all of `events`.
pub open spec fn in_code(events: Seq<EventView>) -> bool
    decreases events.len(),
{
    if events.len() == 0 {
        false
    } else {
        in_code_next(in_code(events.drop_last()), events.last())
    }
}

/// What one event becomes: a text inside a fenced code block becomes raw
/// inline HTML holding the highlighted text, every other event stays.
pub open spec fn highlight_event(
    rules: Seq<HighlightRuleView>,
    inside: bool,
    event: EventView,
) -> EventView {
    match event {
        EventView::Text(text) => if inside {
            EventView::InlineHtml(highlighted(rules, text))
        } else {
            event
        },
        _ => event,
    }
}

/// The stream with the text of every fenced code block highlighted by
/// `rules`; the stream itself where no rules are set.
pub open spec fn highlight_code(
    rules: Option<Seq<HighlightRuleView>>,
    events: Seq<EventView>,
) -> Seq<EventView> {
    match rules {
        Some(rules) => Seq::new(
            events.len(),
            |i: int| highlight_event(rules, in_code(events.take(i)), events[i]),
        ),
        None => events,
    }
}

/// Escapes the text inside every fenced code block for HTML and applies the
/// context's highlight rules to it in order, each rule to the output of the one
/// before. A context without highlight rules leaves the stream as it is.
pub fn highlight_code_pass(events: Vec<Event>, ctxt: &mut RenderingContext) -> (passed: Result<
    Vec<Event>,
    RenderError,
>)
    ensures
        passed matches Ok(out) && out.deep_view() == highlight_code(
            old(ctxt)@.highlights,
            events.deep_view(),
        ),
        final(ctxt)@ == old(ctxt)@,
{
    let ghost before = events.deep_view();
    let rules = match ctxt.highlights() {
        Ok(rules) => rules,
        Err(_) => { return Ok(events); },
    };
    let ghost views = rules.deep_view();
    let mut stream = events;
    let mut inside = false;
    let mut i: usize = 0;
    proof {
        assert(before.take(0) =~= Seq::empty());
    }
    while i < stream.len()
        invariant
            i <= stream@.len(),
            stream@.len() == before.len(),
            views == rules.deep_view(),
            inside == in_code(before.take(i as int)),
            forall|j: int|
                0 <= j < i ==> (#[trigger] stream@[j])@ == highlight_event(
                    views,
                    in_code(before.take(j)),
                    before[j],
                ),
            forall|j: int| i <= j < stream@.len() ==> (#[trigger] stream@[j])@ == before[j],
        decreases stream.len() - i,
    {
        proof {
            let next = before.take(i + 1);
            assert(next.drop_last() =~= before.take(i as int));
            assert(next.last() == before[i as int]);
        }
        let mut replacement: Option<Event> = None;
        match &stream[i] {
            Event::Start(Tag::CodeBlock(CodeBlockKind::Fenced(_))) => {
                inside = true;
            },
            Event::End(TagEnd::CodeBlock) => {
                inside = false;
            },
            Event::Text(text) => {
                if inside {
                    let code = escape_html(text.as_str());
                    replacement = Some(Event::InlineHtml(apply_all(rules, code)));
                }
            },
            _ => {},
        }
        if let Some(event) = replacement {
            stream[i] = event;
        }
        i += 1;
    }
    proof {
        assert(stream.deep_view() =~= highlight_code(Some(views), before));
    }
    Ok(stream)
}

} // verus!
