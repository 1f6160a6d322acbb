//! The site-wide lists that a run ends with: the records of all rendered
//! pages, newest first, and their search indexes beside them.

use crate::bloom_filter::BloomFilter;
use crate::context::{Flag, Metadata, MetadataView};
use crate::encoding::{base64_encode, base64_standard};
use crate::text::{ends_with, lemma_lex_le_total, lemma_lex_le_transitive, lex_le, str_le};
use vstd::prelude::*;
use vstd::seq_lib::{to_multiset_build, to_multiset_insert};
use vstd::string::StringExecFns;

verus! {

/// Whether the records stand newest first: no record has a later update date
/// than one before it.
pub open spec fn newest_first(records: Seq<MetadataView>) -> bool {
    forall|i: int, j: int|
        0 <= i < j < records.len() ==> lex_le(
            (#[trigger] records[j]).update,
            (#[trigger] records[i]).update,
        )
}

/// Orders the records by update date, newest first. Which of two records of
/// the same date comes first is not fixed.
pub fn sort_by_update(records: Vec<Metadata>) -> (sorted: Vec<Metadata>)
    ensures
        newest_first(sorted.deep_view()),
        sorted.deep_view().to_multiset() == records.deep_view().to_multiset(),
{
    let ghost before = records.deep_view();
    let mut sorted: Vec<Metadata> = Vec::new();
    proof {
        assert(before.take(0) =~= Seq::empty());
        assert(sorted.deep_view() =~= Seq::empty());
    }
    for record in it: records.into_iter()
        invariant
            it.seq() == records@,
            before == records.deep_view(),
            newest_first(sorted.deep_view()),
            sorted.deep_view().to_multiset() == before.take(it.index()).to_multiset(),
    {
        let ghost placed = sorted.deep_view();
        let mut at: usize = 0;
        while at < sorted.len() && !str_le(sorted[at].update().as_str(), record.update().as_str())
            invariant
                at <= sorted@.len(),
                placed == sorted.deep_view(),
                forall|k: int| 0 <= k < at ==> lex_le(record@.update, (#[trigger] placed[k]).update),
            decreases sorted.len() - at,
        {
            proof {
                assert(placed[at as int] == sorted@[at as int]@);
                lemma_lex_le_total(placed[at as int].update, record@.update);
            }
            at += 1;
        }
        proof {
            if at < sorted@.len() {
                assert(placed[at as int] == sorted@[at as int]@);
            }
        }
        sorted.insert(at, record);
        proof {
            let now = sorted.deep_view();
            assert(now =~= placed.insert(at as int, record@));
            to_multiset_insert(placed, at as int, record@);
            let next = before.take(it.index() + 1);
            assert(next =~= before.take(it.index()).push(record@));
            to_multiset_build(before.take(it.index()), record@);
            assert forall|i: int, j: int| 0 <= i < j < now.len() implies lex_le(
                (#[trigger] now[j]).update,
                (#[trigger] now[i]).update,
            ) by {
                if j < at {
                    assert(now[i] == placed[i] && now[j] == placed[j]);
                } else if j == at {
                    assert(now[i] == placed[i]);
                } else if i < at {
                    assert(now[i] == placed[i] && now[j] == placed[j - 1]);
                } else if i == at {
                    assert(now[j] == placed[j - 1]);
                    if j - 1 > at {
                        lemma_lex_le_transitive(
                            placed[j - 1].update,
                            placed[at as int].update,
                            record@.update,
                        );
                    }
                } else {
                    assert(now[i] == placed[i - 1] && now[j] == placed[j - 1]);
                }
            }
        }
    }
    proof {
        assert(before.take(before.len() as int) =~= before);
    }
    sorted
}

/// The bytes of a search index as the manifest carries them: in Base64.
pub fn filter_text(filter: &BloomFilter) -> (text: String)
    ensures
        text@ == base64_standard(filter.bytes()),
{
    base64_encode(filter.filter().as_slice())
}

/// What stands between the address of the site and the path of a page: a
/// `/`, unless the address ends in one.
pub open spec fn slash_after(publish_url: Seq<char>) -> Seq<char> {
    if "/"@.is_suffix_of(publish_url) {
        Seq::empty()
    } else {
        "/"@
    }
}

/// The entry of one page in the site map: its address and the date of its
/// last update.
pub open spec fn sitemap_entry(publish_url: Seq<char>, record: MetadataView) -> Seq<char> {
    "  <url><loc>"@ + publish_url + slash_after(publish_url) + record.path + "</loc><lastmod>"@
        + record.update + "</lastmod></url>\n"@
}

/// The entries of the pages that are not encrypted, in the order of the
/// records.
pub open spec fn sitemap_entries(publish_url: Seq<char>, records: Seq<MetadataView>) -> Seq<char>
    decreases records.len(),
{
    if records.len() == 0 {
        Seq::empty()
    } else if records.last().flags.contains(Flag::Crypto) {
        sitemap_entries(publish_url, records.drop_last())
    } else {
        sitemap_entries(publish_url, records.drop_last()) + sitemap_entry(
            publish_url,
            records.last(),
        )
    }
}

/// The site map: the XML declaration, and the set of the entries.
pub open spec fn sitemap(publish_url: Seq<char>, records: Seq<MetadataView>) -> Seq<char> {
    "<?xml version=\"1.0\" encoding=\"UTF-8\"?>\n<urlset xmlns=\"http://www.sitemaps.org/schemas/sitemap/0.9\">\n"@
        + sitemap_entries(publish_url, records) + "</urlset>\n"@
}

/// Writes the site map of a site that is published at `publish_url`. Encrypted
/// pages are left out.
pub fn sitemap_xml(publish_url: &str, records: &Vec<Metadata>) -> (xml: String)
    ensures
        xml@ == sitemap(publish_url@, records.deep_view()),
{
    let ghost views = records.deep_view();
    let slash = if ends_with(publish_url, "/") {
        ""
    } else {
        "/"
    };
    let mut entries = String::new();
    let mut i: usize = 0;
    proof {
        reveal_strlit("");
        assert(""@ =~= Seq::<char>::empty());
        assert(views.take(0) =~= Seq::empty());
    }
    while i < records.len()
        invariant
            i <= records@.len(),
            views == records.deep_view(),
            views.len() == records@.len(),
            slash@ == slash_after(publish_url@),
            entries@ == sitemap_entries(publish_url@, views.take(i as int)),
        decreases records.len() - i,
    {
        proof {
            let next = views.take(i + 1);
            assert(next.drop_last() =~= views.take(i as int));
            assert(next.last() == records@[i as int]@);
        }
        let record = &records[i];
        if !record.crypto() {
            let ghost sofar = entries@;
            entries.append("  <url><loc>");
            entries.append(publish_url);
            entries.append(slash);
            entries.append(record.dst_path().as_str());
            entries.append("</loc><lastmod>");
            entries.append(record.update().as_str());
            entries.append("</lastmod></url>\n");
            proof {
                assert(entries@ =~= sofar + sitemap_entry(publish_url@, record@));
            }
        }
        i += 1;
    }
    proof {
        assert(views.take(i as int) =~= views);
    }
    let mut xml = String::from_str(
        "<?xml version=\"1.0\" encoding=\"UTF-8\"?>\n<urlset xmlns=\"http://www.sitemaps.org/schemas/sitemap/0.9\">\n",
    );
    xml.append(entries.as_str());
    xml.append("</urlset>\n");
    xml
}

} // verus!
