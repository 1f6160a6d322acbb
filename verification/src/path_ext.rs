//! Paths of documents and pages, as the site writes them: relative, with `/`
//! between their components.

use crate::text::{chars_of, ends_with, without_last};
use vstd::prelude::*;
use vstd::string::StringExecFns;

verus! {

/// Whether a component of the path begins at position `i`: a character other
/// than `/` that stands first or behind a `/`.
pub open spec fn component_starts(path: Seq<char>, i: int) -> bool {
    path[i] != '/' && (i == 0 || path[i - 1] == '/')
}

/// The number of components of a path.
pub open spec fn components(path: Seq<char>) -> nat
    decreases path.len(),
{
    if path.len() == 0 {
        0
    } else {
        components(path.drop_last()) + if component_starts(path, path.len() - 1) {
            1nat
        } else {
            0nat
        }
    }
}

/// The path that climbs `depth` directories: `..` for each, with `/` between
/// them.
pub open spec fn climb(depth: nat) -> Seq<char>
    decreases depth,
{
    if depth == 0 {
        Seq::empty()
    } else if depth == 1 {
        ".."@
    } else {
        climb((depth - 1) as nat) + "/.."@
    }
}

/// The position behind the last `/` of a path, or 0 where it has none: where
/// the file name begins.
pub open spec fn name_start(path: Seq<char>) -> int
    decreases path.len(),
{
    if path.len() == 0 {
        0
    } else if path.last() == '/' {
        path.len() as int
    } else {
        name_start(path.drop_last())
    }
}

/// The directory of a path: what stands before its last `/`, or nothing where
/// it has none.
pub open spec fn parent(path: Seq<char>) -> Seq<char> {
    if name_start(path) == 0 {
        Seq::empty()
    } else {
        path.take(name_start(path) - 1)
    }
}

/// Whether the file name of `path` ends in `.` and `ext`, with something
/// before the dot.
pub open spec fn has_extension(path: Seq<char>, ext: Seq<char>) -> bool {
    let suffix = "."@ + ext;
    suffix.is_suffix_of(path) && name_start(path) < path.len() - suffix.len()
}

/// The path of the page that a document is rendered to: a Markdown document
/// has its extension `md` replaced by `html`, every other file keeps its path.
pub open spec fn page_path(source: Seq<char>) -> Seq<char> {
    if has_extension(source, "md"@) {
        source.take(source.len() - 2) + "html"@
    } else {
        source
    }
}

/// `path` as seen from the directory `base`: behind `base` and a `/`, or alone
/// where `base` is empty.
pub open spec fn joined(base: Seq<char>, path: Seq<char>) -> Seq<char> {
    if base.len() == 0 {
        path
    } else {
        base + "/"@ + path
    }
}

/// Questions about a path.
pub trait PathExt {
    /// The characters of the path.
    spec fn path_chars(&self) -> Seq<char>;

    /// Whether the path's extension is `ext`.
    fn extension_is(&self, ext: &str) -> (yes: bool)
        ensures
            yes == has_extension(self.path_chars(), ext@),
    ;

    /// The way back from a directory to the directory its path starts from:
    /// one `..` for each component. Whether the path names a directory is not
    /// looked at.
    fn dir_path_to_origin_unchecked(&self) -> (up: String)
        ensures
            up@ == climb(components(self.path_chars())),
    ;
}

fn find_name_start(chars: &Vec<char>) -> (start: usize)
    ensures
        start == name_start(chars@),
        start <= chars@.len(),
{
    let mut start: usize = 0;
    let mut i: usize = 0;
    proof {
        assert(chars@.take(0) =~= Seq::empty());
    }
    while i < chars.len()
        invariant
            i <= chars@.len(),
            start <= i,
            start == name_start(chars@.take(i as int)),
        decreases chars.len() - i,
    {
        proof {
            let next = chars@.take(i + 1);
            assert(next.drop_last() =~= chars@.take(i as int));
        }
        if chars[i] == '/' {
            start = i + 1;
        }
        i += 1;
    }
    proof {
        assert(chars@.take(i as int) =~= chars@);
    }
    start
}

impl PathExt for str {
    open spec fn path_chars(&self) -> Seq<char> {
        self@
    }

    fn extension_is(&self, ext: &str) -> (yes: bool) {
        let mut suffix = String::from_str(".");
        suffix.append(ext);
        if !ends_with(self, suffix.as_str()) {
            return false;
        }
        let chars = chars_of(self);
        let wanted = chars_of(suffix.as_str());
        let start = find_name_start(&chars);
        start < chars.len() - wanted.len()
    }

    fn dir_path_to_origin_unchecked(&self) -> (up: String) {
        let chars = chars_of(self);
        let mut up = String::new();
        let mut depth: usize = 0;
        let mut i: usize = 0;
        proof {
            assert(chars@.take(0) =~= Seq::empty());
        }
        while i < chars.len()
            invariant
                i <= chars@.len(),
                depth <= i,
                depth == components(chars@.take(i as int)),
                up@ == climb(depth as nat),
            decreases chars.len() - i,
        {
            proof {
                let next = chars@.take(i + 1);
                assert(next.drop_last() =~= chars@.take(i as int));
                assert(component_starts(next, i as int) == component_starts(chars@, i as int));
            }
            if chars[i] != '/' && (i == 0 || chars[i - 1] == '/') {
                if depth == 0 {
                    up.append("..");
                } else {
                    up.append("/..");
                }
                depth += 1;
            }
            i += 1;
        }
        proof {
            assert(chars@.take(i as int) =~= chars@);
        }
        up
    }
}

/// The directory of a path.
pub fn parent_of(path: &str) -> (dir: String)
    ensures
        dir@ == parent(path@),
{
    let chars = chars_of(path);
    let start = find_name_start(&chars);
    if start == 0 {
        String::new()
    } else {
        without_last(path, chars.len() - (start - 1))
    }
}

/// The path of the page that the document at `source` is rendered to.
pub fn dst_path_of(source: &str) -> (page: String)
    ensures
        page@ == page_path(source@),
{
    if source.extension_is("md") {
        proof {
            reveal_strlit("md");
            reveal_strlit(".");
        }
        let mut page = without_last(source, 2);
        page.append("html");
        page
    } else {
        String::from_str(source)
    }
}

/// `path` as seen from the directory `base`.
pub fn join(base: &str, path: &str) -> (whole: String)
    ensures
        whole@ == joined(base@, path@),
{
    if base.unicode_len() == 0 {
        String::from_str(path)
    } else {
        let mut whole = String::from_str(base);
        whole.append("/");
        whole.append(path);
        whole
    }
}

} // verus!
