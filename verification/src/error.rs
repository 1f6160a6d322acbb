//! What can go wrong while one document is rendered.

use vstd::prelude::*;
use vstd::string::StringExecFns;

verus! {

/// A field of the rendering context that a pass fills in.
#[derive(Clone, Copy, Debug, PartialEq, Eq, Structural)]
pub enum Field {
    CreateDate,
    LastUpdateDate,
    Tags,
    Flags,
    Title,
    BuildRootToDst,
    BloomFilter,
    Highlights,
    Password,
    Toc,
}

impl Field {
    /// The field's name as it is written in messages.
    pub open spec fn spec_name(self) -> Seq<char> {
        match self {
            Field::CreateDate => "create_date"@,
            Field::LastUpdateDate => "last_update_date"@,
            Field::Tags => "tags"@,
            Field::Flags => "flags"@,
            Field::Title => "title"@,
            Field::BuildRootToDst => "build_root_to_dst"@,
            Field::BloomFilter => "bloom_filter"@,
            Field::Highlights => "highlights"@,
            Field::Password => "password"@,
            Field::Toc => "toc"@,
        }
    }

    /// The field's name as it is written in messages.
    pub fn name(self) -> (name: &'static str)
        ensures
            name@ == self.spec_name(),
    {
        match self {
            Field::CreateDate => "create_date",
            Field::LastUpdateDate => "last_update_date",
            Field::Tags => "tags",
            Field::Flags => "flags",
            Field::Title => "title",
            Field::BuildRootToDst => "build_root_to_dst",
            Field::BloomFilter => "bloom_filter",
            Field::Highlights => "highlights",
            Field::Password => "password",
            Field::Toc => "toc",
        }
    }
}

/// Why a document failed to render. A failure concerns one document only.
#[derive(Clone, Debug, PartialEq, Eq)]
pub enum RenderError {
    /// A field of the context was read before any pass had set it.
    MissingRequiredField(Field),
    /// The document has no front-matter block, or one that cannot be read; the
    /// text says which.
    HeaderParseError(String),
    /// The math renderer rejected a formula; the text is its message.
    MathRenderError(String),
    /// The document asks for encryption and no password is configured.
    MissingPasswordConfig,
    /// The rendered page has no main content to index.
    MissingMainContent,
}

/// The text of the `HeaderParseError` of a document without front matter.
pub open spec fn absent_header_message() -> Seq<char> {
    "Yaml header is not existing."@
}

impl RenderError {
    /// The error written out for a reader.
    pub open spec fn spec_message(&self) -> Seq<char> {
        match self {
            RenderError::MissingRequiredField(field) => field.spec_name()
                + " has not been set yet."@,
            RenderError::HeaderParseError(reason) => "Failed to read the header: "@ + reason@,
            RenderError::MathRenderError(reason) => "Failed to render math: "@ + reason@,
            RenderError::MissingPasswordConfig => "No password is configured for an encrypted page."@,
            RenderError::MissingMainContent => "No body element"@,
        }
    }

    /// The error written out for a reader.
    pub fn message(&self) -> (text: String)
        ensures
            text@ == self.spec_message(),
    {
        match self {
            RenderError::MissingRequiredField(field) => {
                let mut text = String::from_str(field.name());
                text.append(" has not been set yet.");
                text
            },
            RenderError::HeaderParseError(reason) => {
                let mut text = String::from_str("Failed to read the header: ");
                text.append(reason.as_str());
                text
            },
            RenderError::MathRenderError(reason) => {
                let mut text = String::from_str("Failed to render math: ");
                text.append(reason.as_str());
                text
            },
            RenderError::MissingPasswordConfig => String::from_str(
                "No password is configured for an encrypted page.",
            ),
            RenderError::MissingMainContent => String::from_str("No body element"),
        }
    }
}

} // verus!
