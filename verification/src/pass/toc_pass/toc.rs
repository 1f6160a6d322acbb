//! The table of contents of a page: its headings below the title, as a nested
//! HTML list of anchor links.

use vstd::prelude::*;
use vstd::string::StringExecFns;

verus! {

/// One entry of a table of contents. `level` is 1 for a heading directly below
/// the page title.
pub struct TocItem {
    title: String,
    id: String,
    level: usize,
}

/// The mathematical value of a [`TocItem`].
pub struct TocItemView {
    pub title: Seq<char>,
    pub id: Seq<char>,
    pub level: nat,
}

impl View for TocItem {
    type V = TocItemView;

    closed spec fn view(&self) -> TocItemView {
        TocItemView { title: self.title@, id: self.id@, level: self.level as nat }
    }
}

impl DeepView for TocItem {
    type V = TocItemView;

    open spec fn deep_view(&self) -> TocItemView {
        self@
    }
}

/// `count` copies of `piece`, one after another.
pub open spec fn repeated(piece: Seq<char>, count: nat) -> Seq<char>
    decreases count,
{
    if count == 0 {
        Seq::empty()
    } else {
        repeated(piece, (count - 1) as nat) + piece
    }
}

/// By how much `a` exceeds `b`, or 0 where it does not.
pub open spec fn excess(a: nat, b: nat) -> nat {
    if a > b {
        (a - b) as nat
    } else {
        0
    }
}

/// The level of the last of `items`, or 0 where there is none.
pub open spec fn last_level(items: Seq<TocItemView>) -> nat {
    if items.len() == 0 {
        0
    } else {
        items.last().level
    }
}

/// The anchor link of one entry.
pub open spec fn anchor(item: TocItemView) -> Seq<char> {
    "<a href=\"#"@ + item.id + "\">"@ + item.title + "</a>"@
}

/// What one entry adds to the list when the entry before it stood at level
/// `prev`: a list opened for each level it descends, a list closed for each
/// level it climbs, a separator unless it descends, and its link.
pub open spec fn entry_html(prev: nat, item: TocItemView) -> Seq<char> {
    let opened = repeated("<ul><li>"@, excess(item.level, prev));
    let closed = repeated("</li></ul>"@, excess(prev, item.level));
    let separator = if item.level <= prev {
        "</li><li>"@
    } else {
        Seq::empty()
    };
    opened + closed + separator + anchor(item)
}

/// The list as far as the last of `items`, with the levels it opened still
/// open.
pub open spec fn open_html(items: Seq<TocItemView>) -> Seq<char>
    decreases items.len(),
{
    if items.len() == 0 {
        Seq::empty()
    } else {
        open_html(items.drop_last()) + entry_html(last_level(items.drop_last()), items.last())
    }
}

/// The whole list: every entry, then a close for each level still open.
pub open spec fn toc_html(items: Seq<TocItemView>) -> Seq<char> {
    open_html(items) + repeated("</li></ul>"@, last_level(items))
}

fn push_repeated(html: &mut String, piece: &str, count: usize)
    ensures
        final(html)@ == old(html)@ + repeated(piece@, count as nat),
{
    let mut i: usize = 0;
    proof {
        assert(html@ + repeated(piece@, 0) =~= html@);
    }
    while i < count
        invariant
            i <= count,
            html@ == old(html)@ + repeated(piece@, i as nat),
        decreases count - i,
    {
        proof {
            assert((old(html)@ + repeated(piece@, i as nat)) + piece@ =~= old(html)@ + repeated(
                piece@,
                (i + 1) as nat,
            ));
        }
        html.append(piece);
        i += 1;
    }
}

/// A finished table of contents.
pub struct Toc {
    items: Vec<TocItem>,
}

impl View for Toc {
    type V = Seq<TocItemView>;

    closed spec fn view(&self) -> Seq<TocItemView> {
        self.items.deep_view()
    }
}

impl DeepView for Toc {
    type V = Seq<TocItemView>;

    open spec fn deep_view(&self) -> Seq<TocItemView> {
        self@
    }
}

impl Toc {
    /// The nested list of anchor links.
    pub fn to_html(&self) -> (html: String)
        ensures
            html@ == toc_html(self@),
    {
        let mut html = String::new();
        let mut prev_level: usize = 0;
        let mut i: usize = 0;
        let ghost items = self@;
        while i < self.items.len()
            invariant
                i <= self.items@.len(),
                items == self@,
                items.len() == self.items@.len(),
                html@ == open_html(items.take(i as int)),
                prev_level == last_level(items.take(i as int)),
            decreases self.items.len() - i,
        {
            let item = &self.items[i];
            let ghost start = html@;
            proof {
                let next = items.take(i + 1);
                assert(next.drop_last() =~= items.take(i as int));
                assert(next.last() == item@);
            }
            if prev_level < item.level {
                push_repeated(&mut html, "<ul><li>", item.level - prev_level);
                proof {
                    assert(repeated("</li></ul>"@, 0) =~= Seq::empty());
                }
            } else {
                push_repeated(&mut html, "</li></ul>", prev_level - item.level);
                html.append("</li><li>");
                proof {
                    assert(repeated("<ul><li>"@, 0) =~= Seq::empty());
                }
            }
            html.append("<a href=\"#");
            html.append(item.id.as_str());
            html.append("\">");
            html.append(item.title.as_str());
            html.append("</a>");
            proof {
                assert(item@.level == item.level);
                assert(html@ =~= start + entry_html(prev_level as nat, item@));
            }
            prev_level = item.level;
            i += 1;
        }
        proof {
            assert(items.take(i as int) =~= items);
        }
        push_repeated(&mut html, "</li></ul>", prev_level);
        html
    }
}

/// Collects the entries of a table of contents in document order.
pub struct TocBuilder {
    items: Vec<TocItem>,
}

impl View for TocBuilder {
    type V = Seq<TocItemView>;

    closed spec fn view(&self) -> Seq<TocItemView> {
        self.items.deep_view()
    }
}

impl TocBuilder {
    /// A builder with no entries.
    pub fn new() -> (builder: Self)
        ensures
            builder@ == Seq::<TocItemView>::empty(),
    {
        let builder = Self { items: Vec::new() };
        proof {
            assert(builder.items.deep_view() =~= Seq::<TocItemView>::empty());
        }
        builder
    }

    /// Appends an entry.
    pub fn add_item(&mut self, title: String, id: String, level: usize)
        ensures
            final(self)@ == old(self)@.push(
                TocItemView { title: title@, id: id@, level: level as nat },
            ),
    {
        self.items.push(TocItem { title, id, level });
        proof {
            assert(self.items.deep_view() =~= old(self).items.deep_view().push(
                TocItemView { title: title@, id: id@, level: level as nat },
            ));
        }
    }

    /// The table of contents of the entries collected so far.
    pub fn build(self) -> (toc: Toc)
        ensures
            toc@ == self@,
    {
        Toc { items: self.items }
    }
}

} // verus!
