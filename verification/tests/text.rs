use zakki::path_ext::{dst_path_of, join, parent_of, PathExt};
use zakki::text::{
    chars_of, decimal, ends_with, escape_html, starts_with, str_le, without_last,
};
use zakki::vec_ext::VecExt;

#[test]
fn characters_of_a_string() {
    assert_eq!(chars_of("aあb"), vec!['a', 'あ', 'b']);
    assert_eq!(chars_of(""), Vec::<char>::new());
}

#[test]
fn prefixes_and_suffixes() {
    assert!(starts_with("https://x", "https://"));
    assert!(!starts_with("http://x", "https://"));
    assert!(starts_with("abc", ""));
    assert!(starts_with("abc", "abc"));
    assert!(!starts_with("ab", "abc"));
    assert!(ends_with("a.md", ".md"));
    assert!(!ends_with("a.mdx", ".md"));
    assert!(ends_with("a", ""));
    assert!(!ends_with("md", ".md"));
    assert!(ends_with("日本語.md", ".md"));
}

#[test]
fn dropping_the_last_characters() {
    assert_eq!(without_last("notes.md", 3), "notes");
    assert_eq!(without_last("日本語", 1), "日本");
    assert_eq!(without_last("abc", 0), "abc");
    assert_eq!(without_last("abc", 3), "");
}

#[test]
fn html_escapes() {
    assert_eq!(escape_html("a < b && c > d"), "a &lt; b &amp;&amp; c &gt; d");
    assert_eq!(escape_html("&lt;"), "&amp;lt;");
    assert_eq!(escape_html("\"quoted\" 'x' 日本"), "\"quoted\" 'x' 日本");
    assert_eq!(escape_html(""), "");
}

#[test]
fn decimal_numbers() {
    assert_eq!(decimal(0), "0");
    assert_eq!(decimal(7), "7");
    assert_eq!(decimal(10), "10");
    assert_eq!(decimal(1234567890), "1234567890");
    assert_eq!(decimal(usize::MAX), usize::MAX.to_string());
}

#[test]
fn order_of_strings() {
    assert!(str_le("", ""));
    assert!(str_le("", "a"));
    assert!(!str_le("a", ""));
    assert!(str_le("2024-01-02", "2024-01-10"));
    assert!(!str_le("2024-02-01", "2024-01-31"));
    assert!(str_le("abc", "abc"));
    assert!(str_le("ab", "abc"));
    assert!(!str_le("abc", "ab"));
    assert!(str_le("z", "あ"));
    for (a, b) in [("a", "b"), ("あ", "い"), ("x", "x"), ("10", "9"), ("𝄞", "ｱ")] {
        assert_eq!(str_le(a, b), a <= b, "{a} {b}");
        assert_eq!(str_le(b, a), b <= a, "{b} {a}");
    }
}

#[test]
fn page_path_of_a_document() {
    assert_eq!(dst_path_of("notes.md"), "notes.html");
    assert_eq!(dst_path_of("a/b/c.md"), "a/b/c.html");
    assert_eq!(dst_path_of("a.b.md"), "a.b.html");
    assert_eq!(dst_path_of("image.png"), "image.png");
    assert_eq!(dst_path_of("dir/.md"), "dir/.md");
    assert_eq!(dst_path_of(".md"), ".md");
    assert_eq!(dst_path_of("readme"), "readme");
    assert_eq!(dst_path_of("a.md/b"), "a.md/b");
}

#[test]
fn extension_of_a_path() {
    assert!("a.md".extension_is("md"));
    assert!("x/a.b.md".extension_is("md"));
    assert!(!"a.md".extension_is("html"));
    assert!(!".md".extension_is("md"));
    assert!(!"x/.md".extension_is("md"));
    assert!(!"amd".extension_is("md"));
    assert!("..md".extension_is("md"));
}

#[test]
fn way_back_to_the_origin() {
    assert_eq!("".dir_path_to_origin_unchecked(), "");
    assert_eq!("a".dir_path_to_origin_unchecked(), "..");
    assert_eq!("a/b".dir_path_to_origin_unchecked(), "../..");
    assert_eq!("a/b/c".dir_path_to_origin_unchecked(), "../../..");
    assert_eq!("a//b/".dir_path_to_origin_unchecked(), "../..");
}

#[test]
fn directory_of_a_path() {
    assert_eq!(parent_of("a/b/page.html"), "a/b");
    assert_eq!(parent_of("page.html"), "");
    assert_eq!(parent_of("a/page.html"), "a");
    assert_eq!(parent_of(""), "");
    assert_eq!(parent_of("a/"), "a");
}

#[test]
fn joining_paths() {
    assert_eq!(join("", "style.css"), "style.css");
    assert_eq!(join("..", "style.css"), "../style.css");
    assert_eq!(join("../..", "a/b.js"), "../../a/b.js");
}

#[test]
fn one_vector_behind_another() {
    assert_eq!(vec![1, 2].extended(vec![3]), vec![1, 2, 3]);
    assert_eq!(Vec::<u8>::new().extended(vec![]), Vec::<u8>::new());
    assert_eq!(vec!["a"].extended(vec![]), vec!["a"]);
}
