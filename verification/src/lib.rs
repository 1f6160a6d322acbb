//! Renders Markdown documents into pages of a static site: an ordered list of
//! passes over a document's event stream, a Bloom-filter search index built from
//! the rendered text, and encryption of access-restricted pages.

pub mod aes_256_cbc;
pub mod bloom_filter;
pub mod config;
pub mod context;
pub mod encoding;
pub mod error;
pub mod event;
pub mod fxhash;
pub mod html_template;
pub mod manifest;
pub mod pass;
pub mod path_ext;
pub mod renderer;
pub mod search_index;
pub mod segmenter;
pub mod text;
pub mod vec_ext;
