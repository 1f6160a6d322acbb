//! The pass that numbers the headings of a document.
//!
//! One counter is kept for each heading level. A heading of level `L` resets
//! the counters of every deeper level and advances its own; its id is made of
//! the counters of levels 2 to 6, up to the first that stands at zero. A
//! heading that skips a level therefore gets the id of its nearest numbered
//! ancestor's depth: after an `H2`, an `H4` is numbered like the `H2`.

use crate::context::RenderingContext;
use crate::error::RenderError;
use crate::event::{Event, EventView, Tag, TagView};
use crate::text::{decimal, spec_decimal};
use vstd::prelude::*;
use vstd::slice::slice_subrange;
use vstd::string::StringExecFns;

verus! {

/// The counters before the first heading: six zeros.
pub open spec fn no_headings() -> Seq<nat> {
    Seq::new(6, |k: int| 0nat)
}

/// The counters after a heading of level `level`: shallower levels keep their
/// count, the heading's own level advances, deeper levels start over.
pub open spec fn count_heading(counters: Seq<nat>, level: nat) -> Seq<nat> {
    Seq::new(
        6,
        |k: int|
            if k + 1 < level {
                counters[k]
            } else if k + 1 == level {
                counters[k] + 1
            } else {
                0nat
            },
    )
}

/// The counters after all of `events`.
pub open spec fn counters_after(events: Seq<EventView>) -> Seq<nat>
    decreases events.len(),
{
    if events.len() == 0 {
        no_headings()
    } else {
        match events.last() {
            EventView::Start(TagView::Heading { level, id, classes, attrs }) => count_heading(
                counters_after(events.drop_last()),
                level.spec_number(),
            ),
            _ => counters_after(events.drop_last()),
        }
    }
}

/// How many counters stand above zero before the first that does not.
pub open spec fn leading_positive(counters: Seq<nat>) -> nat
    decreases counters.len(),
{
    if counters.len() == 0 || counters[0] == 0 {
        0
    } else {
        1 + leading_positive(counters.drop_first())
    }
}

/// The first `n` counters in decimal, joined by dots.
pub open spec fn dotted(counters: Seq<nat>, n: nat) -> Seq<char>
    decreases n,
{
    if n == 0 {
        Seq::empty()
    } else if n == 1 {
        spec_decimal(counters[0])
    } else {
        dotted(counters, (n - 1) as nat) + "."@ + spec_decimal(counters[n - 1])
    }
}

/// The id that a run of counters spells: those before the first zero, joined
/// by dots.
pub open spec fn spec_gen_id(counters: Seq<nat>) -> Seq<char> {
    dotted(counters, leading_positive(counters))
}

/// The id of a heading after which the counters stand at `counters`: the
/// title's level does not take part.
pub open spec fn heading_id(counters: Seq<nat>) -> Seq<char> {
    spec_gen_id(counters.skip(1))
}

/// What the `i`-th event becomes: a heading gets its id, every other event
/// stays.
pub open spec fn numbered_event(events: Seq<EventView>, i: int) -> EventView {
    match events[i] {
        EventView::Start(TagView::Heading { level, id, classes, attrs }) => EventView::Start(
            TagView::Heading {
                level,
                id: Some(heading_id(counters_after(events.take(i + 1)))),
                classes,
                attrs,
            },
        ),
        _ => events[i],
    }
}

/// The stream with every heading numbered.
pub open spec fn assign_ids(events: Seq<EventView>) -> Seq<EventView> {
    Seq::new(events.len(), |i: int| numbered_event(events, i))
}

/// A level-1 heading gets the empty id, whatever came before it, and leaves
/// every deeper counter at zero.
pub proof fn lemma_title_id_is_empty(counters: Seq<nat>)
    requires
        counters.len() == 6,
    ensures
        heading_id(count_heading(counters, 1)) == Seq::<char>::empty(),
        forall|k: int| 1 <= k < 6 ==> count_heading(counters, 1)[k] == 0,
{
    let after = count_heading(counters, 1);
    assert(after.skip(1)[0] == after[1]);
}

/// The id of a heading of level `level` has at most `level - 1` parts: the
/// counters of the levels deeper than its own stand at zero.
pub proof fn lemma_id_stops_at_level(counters: Seq<nat>, level: nat)
    requires
        counters.len() == 6,
        1 <= level <= 6,
    ensures
        leading_positive(count_heading(counters, level).skip(1)) <= level - 1,
{
    let run = count_heading(counters, level).skip(1);
    lemma_run_stops_at_zero(run, (level - 1) as nat);
}

proof fn lemma_run_stops_at_zero(counters: Seq<nat>, n: nat)
    requires
        n <= counters.len(),
        n == counters.len() || counters[n as int] == 0,
    ensures
        leading_positive(counters) <= n,
    decreases n,
{
    if n > 0 && counters.len() > 0 && counters[0] != 0 {
        let rest = counters.drop_first();
        if n < counters.len() {
            assert(rest[n - 1] == counters[n as int]);
        }
        lemma_run_stops_at_zero(rest, (n - 1) as nat);
    }
}

proof fn lemma_leading_positive(counters: Seq<nat>, n: nat)
    requires
        n <= counters.len(),
        forall|j: int| 0 <= j < n ==> counters[j] > 0,
        n == counters.len() || counters[n as int] == 0,
    ensures
        leading_positive(counters) == n,
    decreases n,
{
    if n > 0 {
        let rest = counters.drop_first();
        assert forall|j: int| 0 <= j < n - 1 implies rest[j] > 0 by {
            assert(rest[j] == counters[j + 1]);
        }
        lemma_leading_positive(rest, (n - 1) as nat);
    }
}

/// The counters before the first zero, in decimal and joined by dots.
pub fn gen_id(counters: &[usize]) -> (id: String)
    ensures
        id@ == spec_gen_id(counters@.map_values(|c: usize| c as nat)),
{
    let ghost values = counters@.map_values(|c: usize| c as nat);
    let mut id = String::new();
    let mut i: usize = 0;
    while i < counters.len() && counters[i] > 0
        invariant
            i <= counters@.len(),
            values == counters@.map_values(|c: usize| c as nat),
            forall|j: int| 0 <= j < i ==> values[j] > 0,
            id@ == dotted(values, i as nat),
        decreases counters.len() - i,
    {
        if i > 0 {
            id.append(".");
        }
        let digits = decimal(counters[i]);
        id.append(digits.as_str());
        proof {
            assert(values[i as int] == counters@[i as int] as nat);
            if i == 0 {
                assert(id@ =~= spec_decimal(values[0]));
            }
        }
        i += 1;
    }
    proof {
        lemma_leading_positive(values, i as nat);
    }
    id
}

/// Gives every heading its hierarchical number as id: the counters of levels 2
/// to 6 up to the first zero, joined by dots. A level-1 heading gets the empty
/// id.
pub fn assign_header_id(events: Vec<Event>, ctxt: &mut RenderingContext) -> (passed: Result<
    Vec<Event>,
    RenderError,
>)
    ensures
        passed matches Ok(out) && out.deep_view() == assign_ids(events.deep_view()),
        final(ctxt)@ == old(ctxt)@,
{
    let ghost before = events.deep_view();
    let total = events.len();
    let mut out: Vec<Event> = Vec::new();
    let mut counters: Vec<usize> = vec![0usize; 6];
    proof {
        assert(before.take(0) =~= Seq::empty());
        assert(counters@.map_values(|c: usize| c as nat) =~= no_headings());
    }
    for event in it: events.into_iter()
        invariant
            it.seq() == events@,
            events@.len() == total,
            before == events.deep_view(),
            counters@.len() == 6,
            counters@.map_values(|c: usize| c as nat) == counters_after(
                before.take(it.index()),
            ),
            forall|k: int| 0 <= k < 6 ==> counters@[k] <= it.index(),
            out@.len() == it.index(),
            forall|j: int|
                0 <= j < it.index() ==> (#[trigger] out@[j])@ == numbered_event(before, j),
    {
        let ghost was = counters@.map_values(|c: usize| c as nat);
        let ghost done = it.index();
        proof {
            let next = before.take(done + 1);
            assert(next.drop_last() =~= before.take(done));
            assert(next.last() == event@);
            assert(before[done] == event@);
            assert(done < events@.len());
        }
        match event {
            Event::Start(Tag::Heading { level, id, classes, attrs }) => {
                let number = level.number();
                let mut k: usize = number;
                while k < 6
                    invariant
                        number <= k <= 6,
                        counters@.len() == 6,
                        was.len() == 6,
                        forall|m: int| 0 <= m < number ==> counters@[m] == was[m],
                        forall|m: int| number <= m < k ==> counters@[m] == 0,
                        forall|m: int| 0 <= m < 6 ==> counters@[m] <= done,
                        done < usize::MAX,
                    decreases 6 - k,
                {
                    counters[k] = 0;
                    k += 1;
                }
                let own = counters[number - 1];
                counters[number - 1] = own + 1;
                proof {
                    assert(counters@.map_values(|c: usize| c as nat) =~= count_heading(
                        was,
                        number as nat,
                    ));
                    assert(counters@.subrange(1, 6).map_values(|c: usize| c as nat)
                        =~= counters@.map_values(|c: usize| c as nat).skip(1));
                }
                let text = gen_id(slice_subrange(counters.as_slice(), 1, 6));
                out.push(Event::Start(Tag::Heading { level, id: Some(text), classes, attrs }));
            },
            other => {
                out.push(other);
            },
        }
    }
    proof {
        assert(out.deep_view() =~= assign_ids(before));
    }
    Ok(out)
}

} // verus!
