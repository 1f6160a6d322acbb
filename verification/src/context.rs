//! The state one document's passes share, and the record it becomes.
//!
//! A [`RenderingContext`] starts empty. Each pass fills in the fields it owns;
//! reading a field that no pass has set is an error that names the field. When
//! every pass has run, the context is converted into the page's [`Metadata`].

use crate::bloom_filter::{BloomFilter, BloomFilterView};
use crate::error::{Field, RenderError};
use crate::pass::highlight_code_pass::{HighlightRule, HighlightRuleView};
use crate::pass::toc_pass::toc::{Toc, TocItemView};
use vstd::prelude::*;

verus! {

/// A switch a document sets in its front matter.
#[derive(Clone, Copy, Debug, PartialEq, Eq, Structural)]
pub enum Flag {
    /// The document is not published unless drafts are asked for.
    Draft,
    /// The page is delivered encrypted and is left out of the search index.
    Crypto,
}

impl DeepView for Flag {
    type V = Flag;

    open spec fn deep_view(&self) -> Flag {
        *self
    }
}

/// Whether `flag` is among `flags`.
pub fn has_flag(flags: &Vec<Flag>, flag: Flag) -> (found: bool)
    ensures
        found == flags@.contains(flag),
{
    let mut i: usize = 0;
    while i < flags.len()
        invariant
            i <= flags@.len(),
            forall|j: int| 0 <= j < i ==> flags@[j] != flag,
        decreases flags.len() - i,
    {
        if flags[i] == flag {
            return true;
        }
        i += 1;
    }
    false
}

/// The per-document accumulator that every pass reads and writes.
pub struct RenderingContext {
    create_date: Option<String>,
    last_update_date: Option<String>,
    tags: Option<Vec<String>>,
    flags: Option<Vec<Flag>>,
    title: Option<String>,
    build_root_to_dst: Option<String>,
    bloom_filter: Option<BloomFilter>,
    highlights: Option<Vec<HighlightRule>>,
    password: Option<String>,
    toc: Option<Toc>,
    js_paths: Vec<String>,
    css_paths: Vec<String>,
}

/// The mathematical value of a [`RenderingContext`].
pub struct RenderingContextView {
    pub create_date: Option<Seq<char>>,
    pub last_update_date: Option<Seq<char>>,
    pub tags: Option<Seq<Seq<char>>>,
    pub flags: Option<Seq<Flag>>,
    pub title: Option<Seq<char>>,
    pub build_root_to_dst: Option<Seq<char>>,
    pub bloom_filter: Option<BloomFilterView>,
    pub highlights: Option<Seq<HighlightRuleView>>,
    pub password: Option<Seq<char>>,
    pub toc: Option<Seq<TocItemView>>,
    pub js_paths: Seq<Seq<char>>,
    pub css_paths: Seq<Seq<char>>,
}

impl View for RenderingContext {
    type V = RenderingContextView;

    closed spec fn view(&self) -> RenderingContextView {
        RenderingContextView {
            create_date: self.create_date.deep_view(),
            last_update_date: self.last_update_date.deep_view(),
            tags: self.tags.deep_view(),
            flags: self.flags.deep_view(),
            title: self.title.deep_view(),
            build_root_to_dst: self.build_root_to_dst.deep_view(),
            bloom_filter: self.bloom_filter.deep_view(),
            highlights: self.highlights.deep_view(),
            password: self.password.deep_view(),
            toc: self.toc.deep_view(),
            js_paths: self.js_paths.deep_view(),
            css_paths: self.css_paths.deep_view(),
        }
    }
}

/// The context in which nothing has been set.
pub open spec fn empty_context() -> RenderingContextView {
    RenderingContextView {
        create_date: None,
        last_update_date: None,
        tags: None,
        flags: None,
        title: None,
        build_root_to_dst: None,
        bloom_filter: None,
        highlights: None,
        password: None,
        toc: None,
        js_paths: Seq::empty(),
        css_paths: Seq::empty(),
    }
}

/// What reading a field gives: its value, or the error that names it.
pub open spec fn read_field<T: DeepView>(
    value: Option<T::V>,
    field: Field,
    got: Result<&T, RenderError>,
) -> bool {
    match value {
        Some(v) => got matches Ok(r) && r.deep_view() == v,
        None => got == Err::<&T, RenderError>(RenderError::MissingRequiredField(field)),
    }
}

impl RenderingContext {
    /// A context in which nothing has been set.
    pub fn new() -> (ctxt: Self)
        ensures
            ctxt@ == empty_context(),
    {
        let ctxt = Self {
            create_date: None,
            last_update_date: None,
            tags: None,
            flags: None,
            title: None,
            build_root_to_dst: None,
            bloom_filter: None,
            highlights: None,
            password: None,
            toc: None,
            js_paths: Vec::new(),
            css_paths: Vec::new(),
        };
        proof {
            assert(ctxt.js_paths.deep_view() =~= Seq::<Seq<char>>::empty());
            assert(ctxt.css_paths.deep_view() =~= Seq::<Seq<char>>::empty());
        }
        ctxt
    }

    /// The date the document was created (yyyy-MM-dd). Fails where the field is unset.
    pub fn create_date(&self) -> (got: Result<&String, RenderError>)
        ensures
            read_field(self@.create_date, Field::CreateDate, got),
    {
        match &self.create_date {
            Some(value) => Ok(value),
            None => Err(RenderError::MissingRequiredField(Field::CreateDate)),
        }
    }

    /// The date the document was last updated (yyyy-MM-dd). Fails where the field is unset.
    pub fn last_update_date(&self) -> (got: Result<&String, RenderError>)
        ensures
            read_field(self@.last_update_date, Field::LastUpdateDate, got),
    {
        match &self.last_update_date {
            Some(value) => Ok(value),
            None => Err(RenderError::MissingRequiredField(Field::LastUpdateDate)),
        }
    }

    /// The document's tags. Fails where the field is unset.
    pub fn tags(&self) -> (got: Result<&Vec<String>, RenderError>)
        ensures
            read_field(self@.tags, Field::Tags, got),
    {
        match &self.tags {
            Some(value) => Ok(value),
            None => Err(RenderError::MissingRequiredField(Field::Tags)),
        }
    }

    /// The document's flags. Fails where the field is unset.
    pub fn flags(&self) -> (got: Result<&Vec<Flag>, RenderError>)
        ensures
            read_field(self@.flags, Field::Flags, got),
    {
        match &self.flags {
            Some(value) => Ok(value),
            None => Err(RenderError::MissingRequiredField(Field::Flags)),
        }
    }

    /// The document's title. Fails where the field is unset.
    pub fn title(&self) -> (got: Result<&String, RenderError>)
        ensures
            read_field(self@.title, Field::Title, got),
    {
        match &self.title {
            Some(value) => Ok(value),
            None => Err(RenderError::MissingRequiredField(Field::Title)),
        }
    }

    /// The path of the page, relative to the root of the site. Fails where the field is unset.
    pub fn build_root_to_dst(&self) -> (got: Result<&String, RenderError>)
        ensures
            read_field(self@.build_root_to_dst, Field::BuildRootToDst, got),
    {
        match &self.build_root_to_dst {
            Some(value) => Ok(value),
            None => Err(RenderError::MissingRequiredField(Field::BuildRootToDst)),
        }
    }

    /// The rules that mark up code blocks. Fails where the field is unset.
    pub fn highlights(&self) -> (got: Result<&Vec<HighlightRule>, RenderError>)
        ensures
            read_field(self@.highlights, Field::Highlights, got),
    {
        match &self.highlights {
            Some(value) => Ok(value),
            None => Err(RenderError::MissingRequiredField(Field::Highlights)),
        }
    }

    /// The password that encrypts the page. Fails where the field is unset.
    pub fn password(&self) -> (got: Result<&String, RenderError>)
        ensures
            read_field(self@.password, Field::Password, got),
    {
        match &self.password {
            Some(value) => Ok(value),
            None => Err(RenderError::MissingRequiredField(Field::Password)),
        }
    }

    /// The page's table of contents. Fails where the field is unset.
    pub fn toc(&self) -> (got: Result<&Toc, RenderError>)
        ensures
            read_field(self@.toc, Field::Toc, got),
    {
        match &self.toc {
            Some(value) => Ok(value),
            None => Err(RenderError::MissingRequiredField(Field::Toc)),
        }
    }

    /// The stylesheets the passes asked for, in the order they asked.
    pub fn css_list(&self) -> (paths: &Vec<String>)
        ensures
            paths.deep_view() == self@.css_paths,
    {
        &self.css_paths
    }

    /// The scripts the passes asked for, in the order they asked.
    pub fn js_list(&self) -> (paths: &Vec<String>)
        ensures
            paths.deep_view() == self@.js_paths,
    {
        &self.js_paths
    }

    /// Sets the field, whatever it held before.
    pub fn set_create_date(&mut self, create_date: String)
        ensures
            final(self)@ == (RenderingContextView { create_date: Some(create_date.deep_view()), ..old(self)@ }),
    {
        self.create_date = Some(create_date);
    }

    /// Sets the field, whatever it held before.
    pub fn set_last_update_date(&mut self, last_update_date: String)
        ensures
            final(self)@ == (RenderingContextView { last_update_date: Some(last_update_date.deep_view()), ..old(self)@ }),
    {
        self.last_update_date = Some(last_update_date);
    }

    /// Sets the field, whatever it held before.
    pub fn set_tags(&mut self, tags: Vec<String>)
        ensures
            final(self)@ == (RenderingContextView { tags: Some(tags.deep_view()), ..old(self)@ }),
    {
        self.tags = Some(tags);
    }

    /// Sets the field, whatever it held before.
    pub fn set_flags(&mut self, flags: Vec<Flag>)
        ensures
            final(self)@ == (RenderingContextView { flags: Some(flags.deep_view()), ..old(self)@ }),
    {
        self.flags = Some(flags);
    }

    /// Sets the field, whatever it held before.
    pub fn set_title(&mut self, title: String)
        ensures
            final(self)@ == (RenderingContextView { title: Some(title.deep_view()), ..old(self)@ }),
    {
        self.title = Some(title);
    }

    /// Sets the field, whatever it held before.
    pub fn set_build_root_to_dst(&mut self, build_root_to_dst: String)
        ensures
            final(self)@ == (RenderingContextView { build_root_to_dst: Some(build_root_to_dst.deep_view()), ..old(self)@ }),
    {
        self.build_root_to_dst = Some(build_root_to_dst);
    }

    /// Sets the field, whatever it held before.
    pub fn set_bloom_filter(&mut self, bloom_filter: BloomFilter)
        ensures
            final(self)@ == (RenderingContextView { bloom_filter: Some(bloom_filter.deep_view()), ..old(self)@ }),
    {
        self.bloom_filter = Some(bloom_filter);
    }

    /// Sets the field, whatever it held before.
    pub fn set_highlights(&mut self, highlights: Vec<HighlightRule>)
        ensures
            final(self)@ == (RenderingContextView { highlights: Some(highlights.deep_view()), ..old(self)@ }),
    {
        self.highlights = Some(highlights);
    }

    /// Sets the field, whatever it held before.
    pub fn set_password(&mut self, password: String)
        ensures
            final(self)@ == (RenderingContextView { password: Some(password.deep_view()), ..old(self)@ }),
    {
        self.password = Some(password);
    }

    /// Sets the field, whatever it held before.
    pub fn set_toc(&mut self, toc: Toc)
        ensures
            final(self)@ == (RenderingContextView { toc: Some(toc.deep_view()), ..old(self)@ }),
    {
        self.toc = Some(toc);
    }

    /// Asks for one more script on the page.
    pub fn push_js_path(&mut self, path: String)
        ensures
            final(self)@ == (RenderingContextView {
                js_paths: old(self)@.js_paths.push(path@),
                ..old(self)@
            }),
    {
        self.js_paths.push(path);
        proof {
            assert(self.js_paths.deep_view() =~= old(self).js_paths.deep_view().push(path@));
        }
    }

    /// Asks for one more stylesheet on the page.
    pub fn push_css_path(&mut self, path: String)
        ensures
            final(self)@ == (RenderingContextView {
                css_paths: old(self)@.css_paths.push(path@),
                ..old(self)@
            }),
    {
        self.css_paths.push(path);
        proof {
            assert(self.css_paths.deep_view() =~= old(self).css_paths.deep_view().push(path@));
        }
    }
}

/// The record of one rendered page: what the site-wide manifests list.
pub struct Metadata {
    create: String,
    update: String,
    tags: Vec<String>,
    flags: Vec<Flag>,
    title: String,
    path: String,
    bloom_filter: BloomFilter,
}

/// The mathematical value of a [`Metadata`].
pub struct MetadataView {
    pub create: Seq<char>,
    pub update: Seq<char>,
    pub tags: Seq<Seq<char>>,
    pub flags: Seq<Flag>,
    pub title: Seq<char>,
    pub path: Seq<char>,
    pub bloom_filter: BloomFilterView,
}

impl View for Metadata {
    type V = MetadataView;

    closed spec fn view(&self) -> MetadataView {
        MetadataView {
            create: self.create@,
            update: self.update@,
            tags: self.tags.deep_view(),
            flags: self.flags.deep_view(),
            title: self.title@,
            path: self.path@,
            bloom_filter: self.bloom_filter@,
        }
    }
}

impl DeepView for Metadata {
    type V = MetadataView;

    open spec fn deep_view(&self) -> MetadataView {
        self@
    }
}

/// The first field a page's record needs that `ctxt` has not set, in the
/// order create date, update date, tags, flags, title, path, search index.
pub open spec fn first_missing(ctxt: RenderingContextView) -> Option<Field> {
    if ctxt.create_date is None {
        Some(Field::CreateDate)
    } else if ctxt.last_update_date is None {
        Some(Field::LastUpdateDate)
    } else if ctxt.tags is None {
        Some(Field::Tags)
    } else if ctxt.flags is None {
        Some(Field::Flags)
    } else if ctxt.title is None {
        Some(Field::Title)
    } else if ctxt.build_root_to_dst is None {
        Some(Field::BuildRootToDst)
    } else if ctxt.bloom_filter is None {
        Some(Field::BloomFilter)
    } else {
        None
    }
}

/// The record of a context that has every field a record needs.
pub open spec fn metadata_of(ctxt: RenderingContextView) -> MetadataView {
    MetadataView {
        create: ctxt.create_date->0,
        update: ctxt.last_update_date->0,
        tags: ctxt.tags->0,
        flags: ctxt.flags->0,
        title: ctxt.title->0,
        path: ctxt.build_root_to_dst->0,
        bloom_filter: ctxt.bloom_filter->0,
    }
}

impl RenderingContext {
    /// Converts the context into the page's record. Succeeds exactly where
    /// every field of the record is set; fails with the first that is not.
    pub fn try_into_metadata(self) -> (converted: Result<Metadata, RenderError>)
        ensures
            match first_missing(self@) {
                Some(field) => converted == Err::<Metadata, RenderError>(
                    RenderError::MissingRequiredField(field),
                ),
                None => converted matches Ok(metadata) && metadata@ == metadata_of(self@),
            },
    {
        let create = match self.create_date {
            Some(value) => value,
            None => { return Err(RenderError::MissingRequiredField(Field::CreateDate)); },
        };
        let update = match self.last_update_date {
            Some(value) => value,
            None => { return Err(RenderError::MissingRequiredField(Field::LastUpdateDate)); },
        };
        let tags = match self.tags {
            Some(value) => value,
            None => { return Err(RenderError::MissingRequiredField(Field::Tags)); },
        };
        let flags = match self.flags {
            Some(value) => value,
            None => { return Err(RenderError::MissingRequiredField(Field::Flags)); },
        };
        let title = match self.title {
            Some(value) => value,
            None => { return Err(RenderError::MissingRequiredField(Field::Title)); },
        };
        let path = match self.build_root_to_dst {
            Some(value) => value,
            None => { return Err(RenderError::MissingRequiredField(Field::BuildRootToDst)); },
        };
        let bloom_filter = match self.bloom_filter {
            Some(value) => value,
            None => { return Err(RenderError::MissingRequiredField(Field::BloomFilter)); },
        };
        Ok(Metadata { create, update, tags, flags, title, path, bloom_filter })
    }
}

impl Metadata {
    /// The date the document was created.
    pub fn create_date(&self) -> (date: &String)
        ensures
            date@ == self@.create,
    {
        &self.create
    }

    /// The date the document was last updated.
    pub fn update(&self) -> (date: &String)
        ensures
            date@ == self@.update,
    {
        &self.update
    }

    /// The document's tags.
    pub fn tags(&self) -> (tags: &Vec<String>)
        ensures
            tags.deep_view() == self@.tags,
    {
        &self.tags
    }

    /// The document's flags.
    pub fn flags(&self) -> (flags: &Vec<Flag>)
        ensures
            flags.deep_view() == self@.flags,
    {
        &self.flags
    }

    /// The document's title.
    pub fn title(&self) -> (title: &String)
        ensures
            title@ == self@.title,
    {
        &self.title
    }

    /// The path of the page, relative to the root of the site.
    pub fn dst_path(&self) -> (path: &String)
        ensures
            path@ == self@.path,
    {
        &self.path
    }

    /// The page's search index.
    pub fn bloom_filter(&self) -> (filter: &BloomFilter)
        ensures
            filter@ == self@.bloom_filter,
    {
        &self.bloom_filter
    }

    /// Whether the page is delivered encrypted.
    pub fn crypto(&self) -> (encrypted: bool)
        ensures
            encrypted == self@.flags.contains(Flag::Crypto),
    {
        proof {
            assert(self.flags.deep_view() =~= self.flags@);
        }
        has_flag(&self.flags, Flag::Crypto)
    }
}

} // verus!
