//! The search index of a page: the words of its main content, in a Bloom
//! filter.

use crate::bloom_filter::{BloomFilter, BloomFilterView};
use crate::error::RenderError;
use vstd::prelude::*;
use vstd::string::StringExecFns;
use vstd::utf8::encode_utf8;

verus! {

/// The selector of the region of a page that is indexed.
pub const MAIN_CONTENT: &'static str = "#main-content";

/// The text nodes, in document order, of the first element of an HTML document
/// that a CSS selector matches; `None` where the selector matches nothing or
/// is no selector.
pub uninterp spec fn selected_text(html: Seq<char>, selector: Seq<char>) -> Option<Seq<Seq<char>>>;

/// `s` in lower case, as Unicode defines it.
pub uninterp spec fn lowercase(s: Seq<char>) -> Seq<char>;

/// Whether `c` is white space, as Unicode defines it.
pub uninterp spec fn whitespace(c: char) -> bool;

/// Parses `selector` with `scraper::Selector::parse` and `html` with
/// `scraper::Html::parse_document`, and collects `ElementRef::text` of the
/// first element that `Html::select` gives. Believed, not proved: the result is
/// a function of the two texts alone; it is `None` where the selector does not
/// parse or selects no element.
#[verifier::external_body]
fn select_text(html: &str, selector: &str) -> (texts: Option<Vec<String>>)
    ensures
        texts.deep_view() == selected_text(html@, selector@),
{
    let selector = scraper::Selector::parse(selector).ok()?;
    let document = scraper::Html::parse_document(html);
    let element = document.select(&selector).next()?;
    Some(element.text().map(|text| text.to_string()).collect())
}

/// `str::to_lowercase`. Believed, not proved: the result is a function of the
/// text alone.
#[verifier::external_body]
fn to_lowercase(s: &str) -> (lower: String)
    ensures
        lower@ == lowercase(s@),
{
    s.to_lowercase()
}

/// `char::is_whitespace`. Believed, not proved: the result is a function of
/// the character alone.
#[verifier::external_body]
fn is_whitespace(c: char) -> (yes: bool)
    ensures
        yes == whitespace(c),
{
    c.is_whitespace()
}

/// The pieces one after another, with `separator` between each two.
pub open spec fn spec_join(pieces: Seq<Seq<char>>, separator: Seq<char>) -> Seq<char>
    decreases pieces.len(),
{
    if pieces.len() == 0 {
        Seq::empty()
    } else if pieces.len() == 1 {
        pieces[0]
    } else {
        spec_join(pieces.drop_last(), separator) + separator + pieces.last()
    }
}

/// The text of a page that is indexed: the text nodes of its main content,
/// with a space between each two; `None` where the page has no main content.
pub open spec fn spec_main_content_text(html: Seq<char>) -> Option<Seq<char>> {
    match selected_text(html, MAIN_CONTENT@) {
        Some(texts) => Some(spec_join(texts, " "@)),
        None => None,
    }
}

/// The pieces one after another, with `separator` between each two.
pub fn join_texts(pieces: &Vec<String>, separator: &str) -> (whole: String)
    ensures
        whole@ == spec_join(pieces.deep_view(), separator@),
{
    let ghost views = pieces.deep_view();
    let mut whole = String::new();
    let mut i: usize = 0;
    proof {
        assert(views.take(0) =~= Seq::empty());
    }
    while i < pieces.len()
        invariant
            i <= pieces@.len(),
            views == pieces.deep_view(),
            views.len() == pieces@.len(),
            whole@ == spec_join(views.take(i as int), separator@),
        decreases pieces.len() - i,
    {
        proof {
            let next = views.take(i + 1);
            assert(next.drop_last() =~= views.take(i as int));
            assert(next.last() == pieces@[i as int]@);
            if i == 0 {
                assert(next[0] == pieces@[0]@);
            }
        }
        if i > 0 {
            whole.append(separator);
        }
        whole.append(pieces[i].as_str());
        proof {
            if i == 0 {
                assert(whole@ =~= pieces@[0]@);
            }
        }
        i += 1;
    }
    proof {
        assert(views.take(i as int) =~= views);
    }
    whole
}

/// The text of a page that is indexed. Fails where the page has no main
/// content.
pub fn main_content_text(html: &str) -> (text: Result<String, RenderError>)
    ensures
        match spec_main_content_text(html@) {
            Some(content) => text matches Ok(t) && t@ == content,
            None => text == Err::<String, RenderError>(RenderError::MissingMainContent),
        },
{
    match select_text(html, MAIN_CONTENT) {
        Some(texts) => Ok(join_texts(&texts, " ")),
        None => Err(RenderError::MissingMainContent),
    }
}

/// Whether a token is nothing but white space.
pub open spec fn blank(token: Seq<char>) -> bool {
    forall|i: int| 0 <= i < token.len() ==> whitespace(#[trigger] token[i])
}

/// The words that a list of tokens adds to the index: every token that is not
/// blank, in lower case, each word once and in the order of its first
/// occurrence.
pub open spec fn words_of(tokens: Seq<Seq<char>>) -> Seq<Seq<char>>
    decreases tokens.len(),
{
    if tokens.len() == 0 {
        Seq::empty()
    } else {
        let sofar = words_of(tokens.drop_last());
        let word = lowercase(tokens.last());
        if blank(tokens.last()) || sofar.contains(word) {
            sofar
        } else {
            sofar.push(word)
        }
    }
}

/// Whether a token is nothing but white space.
pub fn is_blank(token: &str) -> (yes: bool)
    ensures
        yes == blank(token@),
{
    for c in it: token.chars()
        invariant
            it.seq() == token@,
            forall|i: int| 0 <= i < it.index() ==> whitespace(#[trigger] token@[i]),
    {
        if !is_whitespace(c) {
            return false;
        }
    }
    true
}

fn holds(words: &Vec<String>, word: &String) -> (found: bool)
    ensures
        found == words.deep_view().contains(word@),
{
    let mut i: usize = 0;
    while i < words.len()
        invariant
            i <= words@.len(),
            forall|j: int| 0 <= j < i ==> words.deep_view()[j] != word@,
        decreases words.len() - i,
    {
        if words[i] == *word {
            proof {
                assert(words.deep_view()[i as int] == word@);
            }
            return true;
        }
        i += 1;
    }
    false
}

/// The words that a list of tokens adds to the index.
pub fn index_words(tokens: &Vec<String>) -> (words: Vec<String>)
    ensures
        words.deep_view() == words_of(tokens.deep_view()),
{
    let ghost views = tokens.deep_view();
    let mut words: Vec<String> = Vec::new();
    let mut i: usize = 0;
    proof {
        assert(views.take(0) =~= Seq::empty());
        assert(words.deep_view() =~= Seq::empty());
    }
    while i < tokens.len()
        invariant
            i <= tokens@.len(),
            views == tokens.deep_view(),
            views.len() == tokens@.len(),
            words.deep_view() == words_of(views.take(i as int)),
        decreases tokens.len() - i,
    {
        proof {
            let next = views.take(i + 1);
            assert(next.drop_last() =~= views.take(i as int));
            assert(next.last() == tokens@[i as int]@);
        }
        if !is_blank(tokens[i].as_str()) {
            let word = to_lowercase(tokens[i].as_str());
            if !holds(&words, &word) {
                let ghost sofar = words.deep_view();
                words.push(word);
                proof {
                    assert(words.deep_view() =~= sofar.push(word@));
                }
            }
        }
        i += 1;
    }
    proof {
        assert(views.take(i as int) =~= views);
    }
    words
}

/// Whether one of `words` probes position `pos` of `filter`.
pub open spec fn probed_by_any(filter: BloomFilterView, words: Seq<Seq<char>>, pos: int) -> bool {
    exists|w: int| 0 <= w < words.len() && filter.probes(encode_utf8(#[trigger] words[w]), pos)
}

/// Whether `filter` is the index of `words`: of the given size and hash count,
/// with a bit set exactly where one of the words probes it.
pub open spec fn is_index_of(
    filter: BloomFilterView,
    words: Seq<Seq<char>>,
    num_byte: nat,
    num_hash: nat,
) -> bool {
    &&& filter.wf()
    &&& filter.bytes.len() == num_byte
    &&& filter.num_hash == num_hash
    &&& forall|pos: int|
        0 <= pos < filter.num_bits() ==> (filter.bit(pos) <==> probed_by_any(filter, words, pos))
}

/// Builds the index of `words`: a filter of `num_byte` bytes that probes
/// `num_hash` positions for each word, with every word inserted. Every word
/// then tests positive.
pub fn make_bloom_filter(words: &Vec<String>, num_byte: usize, num_hash: u8) -> (filter:
    BloomFilter)
    requires
        num_byte * 8 <= u32::MAX,
        num_hash > 0 ==> num_byte > 0,
    ensures
        is_index_of(filter@, words.deep_view(), num_byte as nat, num_hash as nat),
        forall|w: int|
            0 <= w < words@.len() ==> filter@.contains(
                encode_utf8(#[trigger] words.deep_view()[w]),
            ),
{
    let ghost views = words.deep_view();
    let mut filter = BloomFilter::new(num_byte, num_hash);
    let mut i: usize = 0;
    proof {
        assert(is_index_of(filter@, views.take(0), num_byte as nat, num_hash as nat));
    }
    while i < words.len()
        invariant
            i <= words@.len(),
            views == words.deep_view(),
            views.len() == words@.len(),
            is_index_of(filter@, views.take(i as int), num_byte as nat, num_hash as nat),
        decreases words.len() - i,
    {
        let ghost before = filter@;
        let ghost done = views.take(i as int);
        let ghost next = views.take(i + 1);
        filter.insert_word(words[i].as_str());
        proof {
            let word = encode_utf8(views[i as int]);
            assert(words@[i as int]@ == views[i as int]);
            assert(before.inserted(word, filter@));
            let now = filter@;
            assert forall|pos: int| 0 <= pos < now.num_bits() implies (now.bit(pos)
                <==> probed_by_any(now, next, pos)) by {
                assert(forall|bytes: Seq<u8>| now.probes(bytes, pos) == before.probes(bytes, pos));
                if probed_by_any(now, next, pos) {
                    let w = choose|w: int|
                        0 <= w < next.len() && now.probes(encode_utf8(#[trigger] next[w]), pos);
                    if w < i {
                        assert(done[w] == next[w]);
                        assert(probed_by_any(before, done, pos));
                    }
                }
                if probed_by_any(before, done, pos) {
                    let w = choose|w: int|
                        0 <= w < done.len() && before.probes(encode_utf8(#[trigger] done[w]), pos);
                    assert(next[w] == done[w]);
                }
                if before.probes(word, pos) {
                    assert(next[i as int] == views[i as int]);
                }
            }
        }
        i += 1;
    }
    proof {
        assert(views.take(i as int) =~= views);
        assert forall|w: int| 0 <= w < words@.len() implies filter@.contains(
            encode_utf8(#[trigger] views[w]),
        ) by {
            lemma_indexed_word_is_contained(filter@, views, w);
        }
    }
    filter
}

/// No false negatives: every word of an index tests positive in it.
pub proof fn lemma_indexed_word_is_contained(filter: BloomFilterView, words: Seq<Seq<char>>, w: int)
    requires
        is_index_of(filter, words, filter.bytes.len(), filter.num_hash),
        0 <= w < words.len(),
    ensures
        filter.contains(encode_utf8(words[w])),
{
    let word = encode_utf8(words[w]);
    let hash = crate::fxhash::spec_fxhash64(word);
    assert forall|i: int| 0 <= i < filter.num_hash implies filter.bit(
        #[trigger] crate::bloom_filter::probe(hash, i, filter.num_bits()),
    ) by {
        let pos = crate::bloom_filter::probe(hash, i, filter.num_bits());
        assert(0 <= pos < filter.num_bits());
        assert(filter.probes(word, pos));
        assert(probed_by_any(filter, words, pos));
    }
}

} // verus!
