//! Rendering one document from its event stream to its page and its record.
//!
//! A document is rendered in steps, between which the caller does what only it
//! can: it parses the Markdown and the front matter before `run_passes`, turns
//! the stream that `run_passes` returns into the HTML of the body before
//! `body_to_html`, and sizes the search index before `close_context`.

use crate::aes_256_cbc::{encode_with_password, is_sealed_with, padded_len};
use crate::bloom_filter::{BloomFilter, BloomFilterView};
use crate::config::{Config, ConfigView};
use crate::context::{
    first_missing, has_flag, metadata_of, Flag, Metadata, MetadataView, RenderingContext,
    RenderingContextView,
};
use crate::encoding::{base64_encode, base64_standard, encodable};
use crate::error::{absent_header_message, Field, RenderError};
use crate::event::{Event, EventView};
use crate::html_template::{
    crypto_html, index_html, page_html, spec_crypto_html, spec_index_html, spec_page_html,
};
use crate::pass::read_header_pass::{
    header_source, is_suppressed_draft, merged, read_header_pass, suppressed, YamlHeader,
};
use crate::pass::{apply_passes, standard_passes, PassManager, Progress};
use crate::path_ext::{climb, components, parent, parent_of, PathExt};
use crate::search_index::{
    index_words, is_index_of, main_content_text, make_bloom_filter, spec_main_content_text,
    words_of,
};
use crate::segmenter::{segment, segments};
use vstd::prelude::*;
use vstd::string::{StringExecFns, StringSliceAdditionalSpecFns};
use vstd::utf8::encode_utf8;

verus! {

/// The stylesheets of the site itself.
pub open spec fn default_css() -> Seq<Seq<char>> {
    seq!["style.css"@]
}

/// The scripts of the site itself.
pub open spec fn default_js() -> Seq<Seq<char>> {
    seq!["metadata.js"@, "script.js"@, "theme.js"@]
}

/// The stylesheets a page loads: the site's own, the configured ones, and
/// those the passes asked for.
pub open spec fn page_css(config: ConfigView, ctxt: RenderingContextView) -> Seq<Seq<char>> {
    default_css() + config.css_list + ctxt.css_paths
}

/// The scripts a page loads: the site's own, the configured ones, and those
/// the passes asked for.
pub open spec fn page_js(config: ConfigView, ctxt: RenderingContextView) -> Seq<Seq<char>> {
    default_js() + config.js_list + ctxt.js_paths
}

/// The way from a page back to the root of the site: one `..` for each
/// directory the page's path lies in.
pub open spec fn path_to_root(page: Seq<char>) -> Seq<char> {
    climb(components(parent(page)))
}

/// The context a document starts with: the site's password, and the path of
/// its page.
pub open spec fn opened(config: ConfigView, page: Seq<char>) -> RenderingContextView {
    RenderingContextView {
        password: config.password,
        build_root_to_dst: Some(page),
        ..crate::context::empty_context()
    }
}

/// Whether a plaintext of `len` bytes can be encrypted and encoded: the
/// lengths of the ciphertext and of its encoding fit a `usize`.
pub open spec fn sealable(len: nat) -> bool {
    encodable(16 + padded_len(len))
}

/// Whether `encoded` is the encoding of an encryption of `data` under
/// `password`.
pub open spec fn is_sealed_text(encoded: Seq<char>, password: Seq<u8>, data: Seq<u8>) -> bool {
    exists|payload: Seq<u8>|
        #[trigger] is_sealed_with(payload, password, data) && encoded == base64_standard(payload)
}

/// Why a context cannot be made into a page, where it cannot: the first of the
/// path, the flags, the password of an encrypted page, the title, the two
/// dates and the tags that is unset.
pub open spec fn page_fault(ctxt: RenderingContextView) -> Option<RenderError> {
    if ctxt.build_root_to_dst is None {
        Some(RenderError::MissingRequiredField(Field::BuildRootToDst))
    } else if ctxt.flags is None {
        Some(RenderError::MissingRequiredField(Field::Flags))
    } else if ctxt.flags->0.contains(Flag::Crypto) && ctxt.password is None {
        Some(RenderError::MissingPasswordConfig)
    } else if ctxt.title is None {
        Some(RenderError::MissingRequiredField(Field::Title))
    } else if ctxt.create_date is None {
        Some(RenderError::MissingRequiredField(Field::CreateDate))
    } else if ctxt.last_update_date is None {
        Some(RenderError::MissingRequiredField(Field::LastUpdateDate))
    } else if ctxt.tags is None {
        Some(RenderError::MissingRequiredField(Field::Tags))
    } else {
        None
    }
}

/// Whether `html` is the page of a body under a context that has all a page
/// needs. A page flagged `Crypto` carries, in place of the body, the encoding
/// of an encryption of the body's UTF-8 bytes under the context's password.
pub open spec fn is_page_of(
    config: ConfigView,
    ctxt: RenderingContextView,
    body: Seq<char>,
    html: Seq<char>,
) -> bool {
    let root = path_to_root(ctxt.build_root_to_dst->0);
    if ctxt.flags->0.contains(Flag::Crypto) {
        exists|encoded: Seq<char>|
            #[trigger] is_sealed_text(
                encoded,
                encode_utf8(ctxt.password->0),
                encode_utf8(body),
            ) && html == spec_crypto_html(
                root,
                config.site_name,
                ctxt.title->0,
                ctxt.create_date->0,
                ctxt.last_update_date->0,
                page_css(config, ctxt),
                page_js(config, ctxt),
                ctxt.tags->0,
                encoded,
                config.footer,
            )
    } else {
        html == spec_page_html(
            root,
            config.site_name,
            ctxt.title->0,
            ctxt.create_date->0,
            ctxt.last_update_date->0,
            page_css(config, ctxt),
            page_js(config, ctxt),
            ctxt.tags->0,
            body,
            config.footer,
        )
    }
}

/// What the passes make of a document, or `None` for a draft that is not
/// rendered: the front matter is merged into the context, and unless the
/// document is a suppressed draft every pass runs in order.
pub open spec fn pipeline(
    events: Seq<EventView>,
    header: crate::pass::read_header_pass::YamlHeaderView,
    ctxt: RenderingContextView,
    render_draft: bool,
) -> Option<Progress> {
    let with_header = merged(header, ctxt);
    if suppressed(header.flags, render_draft) {
        None
    } else {
        Some(apply_passes(standard_passes(), events, with_header))
    }
}

/// The field for whose want a context cannot be made into a record, where
/// there is one: the flags, or else the first the record holds that is unset.
/// The search index is not among them: the record gets it as it is made.
pub open spec fn record_fault(ctxt: RenderingContextView) -> Option<Field> {
    if ctxt.flags is None {
        Some(Field::Flags)
    } else {
        first_missing(
            RenderingContextView { bloom_filter: Some(BloomFilterView::empty()), ..ctxt },
        )
    }
}

/// Whether `record` is the record of a context and the words of its page: it
/// holds what the context holds, and as search index the index of the words,
/// of the given size and hash count. The index of a page flagged `Crypto` is
/// empty whatever the words are.
pub open spec fn is_record_of(
    ctxt: RenderingContextView,
    words: Seq<Seq<char>>,
    num_byte: nat,
    num_hash: nat,
    record: MetadataView,
) -> bool {
    &&& record == metadata_of(
        RenderingContextView { bloom_filter: Some(record.bloom_filter), ..ctxt },
    )
    &&& if ctxt.flags->0.contains(Flag::Crypto) {
        record.bloom_filter == BloomFilterView::empty()
    } else {
        is_index_of(record.bloom_filter, words, num_byte, num_hash)
    }
}

/// The words that the page of a document adds to the site's search: those of
/// the text of its main content, or none for a page flagged `Crypto`.
pub open spec fn page_words_of(ctxt: RenderingContextView, html: Seq<char>) -> Option<
    Seq<Seq<char>>,
> {
    if ctxt.flags->0.contains(Flag::Crypto) {
        Some(Seq::empty())
    } else {
        match spec_main_content_text(html) {
            Some(text) => Some(words_of(segments(text))),
            None => None,
        }
    }
}

fn extend_cloned(out: &mut Vec<String>, more: &Vec<String>)
    ensures
        final(out).deep_view() == old(out).deep_view() + more.deep_view(),
{
    let mut i: usize = 0;
    proof {
        assert(out.deep_view() =~= old(out).deep_view() + more.deep_view().take(0));
    }
    while i < more.len()
        invariant
            i <= more@.len(),
            out.deep_view() == old(out).deep_view() + more.deep_view().take(i as int),
        decreases more.len() - i,
    {
        let ghost sofar = out.deep_view();
        out.push(more[i].clone());
        proof {
            assert(out.deep_view() =~= sofar.push(more@[i as int]@));
            assert(out.deep_view() =~= old(out).deep_view() + more.deep_view().take(i + 1));
        }
        i += 1;
    }
    proof {
        assert(more.deep_view().take(i as int) =~= more.deep_view());
    }
}

/// Encrypts `body` under `password` and encodes the result.
pub fn seal_body(password: &str, body: &str) -> (encoded: String)
    requires
        sealable(body.spec_bytes().len()),
    ensures
        is_sealed_text(encoded@, password.spec_bytes(), body.spec_bytes()),
{
    let payload = encode_with_password(password, body.as_bytes());
    let encoded = base64_encode(payload.as_slice());
    proof {
        assert(is_sealed_with(payload@, password.spec_bytes(), body.spec_bytes()));
    }
    encoded
}

/// Renders the documents of a site under its settings.
pub struct Renderer<'a> {
    config: &'a Config,
}

impl<'a> Renderer<'a> {
    /// The settings the renderer works under.
    pub closed spec fn config_view(&self) -> ConfigView {
        self.config@
    }

    /// A renderer under `config`.
    pub fn new(config: &'a Config) -> (renderer: Self)
        ensures
            renderer.config_view() == config@,
    {
        Self { config }
    }

    /// The stylesheets of the site itself.
    pub fn default_css_list(&self) -> (paths: Vec<String>)
        ensures
            paths.deep_view() == default_css(),
    {
        let mut paths: Vec<String> = Vec::new();
        paths.push(String::from_str("style.css"));
        proof {
            assert(paths.deep_view() =~= default_css());
        }
        paths
    }

    /// The scripts of the site itself.
    pub fn default_js_list(&self) -> (paths: Vec<String>)
        ensures
            paths.deep_view() == default_js(),
    {
        let mut paths: Vec<String> = Vec::new();
        paths.push(String::from_str("metadata.js"));
        paths.push(String::from_str("script.js"));
        paths.push(String::from_str("theme.js"));
        proof {
            assert(paths.deep_view() =~= default_js());
        }
        paths
    }

    /// The context of a document whose page will stand at `page`, a path
    /// relative to the root of the site.
    pub fn open_context(&self, page: String) -> (ctxt: RenderingContext)
        ensures
            ctxt@ == opened(self.config_view(), page@),
    {
        let mut ctxt = RenderingContext::new();
        match self.config.password() {
            Some(password) => {
                ctxt.set_password(password.clone());
            },
            None => {},
        }
        ctxt.set_build_root_to_dst(page);
        ctxt
    }

    /// Runs the pipeline of one document: reads the front matter, stops at a
    /// draft that is not to be rendered, and runs every other pass in order.
    /// `parsed` is what reading the text of the front matter as YAML gave.
    ///
    /// Returns `Ok(None)` for a suppressed draft, which is no error, and the
    /// rewritten stream otherwise. Fails where the document has no front
    /// matter or one that cannot be read, and where a pass fails.
    pub fn run_passes(
        &self,
        events: Vec<Event>,
        parsed: Result<YamlHeader, String>,
        ctxt: &mut RenderingContext,
    ) -> (passed: Result<Option<Vec<Event>>, RenderError>)
        ensures
            match (header_source(events.deep_view()), parsed) {
                (None, _) => passed matches Err(RenderError::HeaderParseError(reason)) && reason@
                    == absent_header_message() && final(ctxt)@ == old(ctxt)@,
                (Some(_), Err(why)) => passed matches Err(RenderError::HeaderParseError(reason))
                    && reason@ == why@ && final(ctxt)@ == old(ctxt)@,
                (Some(_), Ok(header)) => match pipeline(
                    events.deep_view(),
                    header@,
                    old(ctxt)@,
                    self.config_view().render_draft,
                ) {
                    None => passed matches Ok(None) && final(ctxt)@ == merged(header@, old(ctxt)@),
                    Some(progress) => final(ctxt)@ == progress.ctxt && match progress.events {
                        Ok(stream) => passed matches Ok(Some(out)) && out.deep_view() == stream,
                        Err(reason) => passed matches Err(RenderError::MathRenderError(text))
                            && text@ == reason,
                    },
                },
            },
    {
        let events = match read_header_pass(events, ctxt, parsed) {
            Ok(events) => events,
            Err(error) => { return Err(error); },
        };
        match is_suppressed_draft(ctxt, self.config.render_draft()) {
            Ok(true) => { return Ok(None); },
            Ok(false) => {},
            Err(error) => { return Err(error); },
        }
        match PassManager::standard().run(events, ctxt) {
            Ok(out) => Ok(Some(out)),
            Err(error) => Err(error),
        }
    }

    /// Assembles the page of a document from the HTML of its body. A document
    /// flagged `Crypto` gets a page that carries its body encrypted under the
    /// context's password.
    ///
    /// Fails where the context lacks a field the page shows, and with
    /// `MissingPasswordConfig` where the page is to be encrypted and no
    /// password is set.
    pub fn body_to_html(&self, body: &str, ctxt: &RenderingContext) -> (page: Result<
        String,
        RenderError,
    >)
        requires
            ctxt@.flags is Some && ctxt@.flags->0.contains(Flag::Crypto) ==> sealable(
                body.spec_bytes().len(),
            ),
        ensures
            match page_fault(ctxt@) {
                Some(error) => page == Err::<String, RenderError>(error),
                None => page matches Ok(html) && is_page_of(
                    self.config_view(),
                    ctxt@,
                    body@,
                    html@,
                ),
            },
    {
        let dst = match ctxt.build_root_to_dst() {
            Ok(path) => path,
            Err(error) => { return Err(error); },
        };
        let dir = parent_of(dst.as_str());
        let root = dir.as_str().dir_path_to_origin_unchecked();
        let mut css_list = self.default_css_list();
        extend_cloned(&mut css_list, self.config.css_list());
        extend_cloned(&mut css_list, ctxt.css_list());
        let mut js_list = self.default_js_list();
        extend_cloned(&mut js_list, self.config.js_list());
        extend_cloned(&mut js_list, ctxt.js_list());
        let flags = match ctxt.flags() {
            Ok(flags) => flags,
            Err(error) => { return Err(error); },
        };
        proof {
            assert(flags.deep_view() =~= flags@);
        }
        let crypto = has_flag(flags, Flag::Crypto);
        let password = if crypto {
            match ctxt.password() {
                Ok(password) => Some(password),
                Err(_) => { return Err(RenderError::MissingPasswordConfig); },
            }
        } else {
            None
        };
        let title = match ctxt.title() {
            Ok(title) => title,
            Err(error) => { return Err(error); },
        };
        let create_date = match ctxt.create_date() {
            Ok(date) => date,
            Err(error) => { return Err(error); },
        };
        let last_update_date = match ctxt.last_update_date() {
            Ok(date) => date,
            Err(error) => { return Err(error); },
        };
        let tags = match ctxt.tags() {
            Ok(tags) => tags,
            Err(error) => { return Err(error); },
        };
        match password {
            Some(password) => {
                let encoded = seal_body(password.as_str(), body);
                let html = crypto_html(
                    root.as_str(),
                    self.config.site_name(),
                    title.as_str(),
                    create_date.as_str(),
                    last_update_date.as_str(),
                    &css_list,
                    &js_list,
                    tags,
                    encoded.as_str(),
                    self.config.footer(),
                );
                proof {
                    assert(is_sealed_text(
                        encoded@,
                        encode_utf8(ctxt@.password->0),
                        encode_utf8(body@),
                    ));
                }
                Ok(html)
            },
            None => Ok(
                page_html(
                    root.as_str(),
                    self.config.site_name(),
                    title.as_str(),
                    create_date.as_str(),
                    last_update_date.as_str(),
                    &css_list,
                    &js_list,
                    tags,
                    body,
                    self.config.footer(),
                ),
            ),
        }
    }

    /// The words of a page for the site's search: the text of its main
    /// content, cut into words, each in lower case and once. A page flagged
    /// `Crypto` has none, whatever it holds.
    ///
    /// Fails where the flags are unset, and where a page that is not encrypted
    /// has no main content.
    pub fn page_words(&self, html: &str, ctxt: &RenderingContext) -> (words: Result<
        Vec<String>,
        RenderError,
    >)
        ensures
            match ctxt@.flags {
                None => words == Err::<Vec<String>, RenderError>(
                    RenderError::MissingRequiredField(Field::Flags),
                ),
                Some(_) => match page_words_of(ctxt@, html@) {
                    Some(list) => words matches Ok(found) && found.deep_view() == list,
                    None => words == Err::<Vec<String>, RenderError>(
                        RenderError::MissingMainContent,
                    ),
                },
            },
    {
        let flags = match ctxt.flags() {
            Ok(flags) => flags,
            Err(error) => { return Err(error); },
        };
        proof {
            assert(flags.deep_view() =~= flags@);
        }
        if has_flag(flags, Flag::Crypto) {
            let none: Vec<String> = Vec::new();
            proof {
                assert(none.deep_view() =~= Seq::<Seq<char>>::empty());
            }
            return Ok(none);
        }
        let text = match main_content_text(html) {
            Ok(text) => text,
            Err(error) => { return Err(error); },
        };
        let tokens = segment(text.as_str());
        Ok(index_words(&tokens))
    }

    /// Ends the rendering of a document: builds the search index of its page
    /// from `words`, in a filter of `num_byte` bytes and `num_hash` hashes, and
    /// converts the context into the page's record. A page flagged `Crypto`
    /// gets the empty index, so that nothing of its text shows in the site's
    /// search.
    ///
    /// Fails where the context lacks a field of the record.
    pub fn close_context(
        &self,
        ctxt: RenderingContext,
        words: &Vec<String>,
        num_byte: usize,
        num_hash: u8,
    ) -> (closed: Result<Metadata, RenderError>)
        requires
            num_byte * 8 <= u32::MAX,
            num_hash > 0 ==> num_byte > 0,
        ensures
            match record_fault(ctxt@) {
                Some(field) => closed == Err::<Metadata, RenderError>(
                    RenderError::MissingRequiredField(field),
                ),
                None => closed matches Ok(record) && is_record_of(
                    ctxt@,
                    words.deep_view(),
                    num_byte as nat,
                    num_hash as nat,
                    record@,
                ),
            },
    {
        let crypto = match ctxt.flags() {
            Ok(flags) => {
                proof {
                    assert(flags.deep_view() =~= flags@);
                }
                has_flag(flags, Flag::Crypto)
            },
            Err(error) => { return Err(error); },
        };
        let filter = if crypto {
            BloomFilter::default()
        } else {
            make_bloom_filter(words, num_byte, num_hash)
        };
        let mut ctxt = ctxt;
        ctxt.set_bloom_filter(filter);
        ctxt.try_into_metadata()
    }

    /// The index page of the site.
    pub fn render_index(&self) -> (html: String)
        ensures
            html@ == spec_index_html(
                self.config_view().site_name,
                default_css() + self.config_view().css_list,
                default_js() + self.config_view().js_list,
                self.config_view().footer,
            ),
    {
        let mut css_list = self.default_css_list();
        extend_cloned(&mut css_list, self.config.css_list());
        let mut js_list = self.default_js_list();
        extend_cloned(&mut js_list, self.config.js_list());
        index_html(self.config.site_name(), &css_list, &js_list, self.config.footer())
    }
}

} // verus!
