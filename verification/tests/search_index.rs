use zakki::search_index::{
    index_words, is_blank, join_texts, main_content_text, make_bloom_filter,
};
use zakki::error::RenderError;

fn strings(items: &[&str]) -> Vec<String> {
    items.iter().map(|item| item.to_string()).collect()
}

#[test]
fn text_of_the_main_content() {
    let html = "<html><body><header>Site</header>\
                <div id=\"main-content\"><h1>Title</h1><p>one <b>two</b></p></div>\
                <footer>foot</footer></body></html>";
    assert_eq!(main_content_text(html), Ok("Title one  two".to_string()));
}

#[test]
fn page_without_main_content() {
    assert_eq!(
        main_content_text("<html><body><p>x</p></body></html>"),
        Err(RenderError::MissingMainContent)
    );
    assert_eq!(main_content_text(""), Err(RenderError::MissingMainContent));
}

#[test]
fn empty_main_content_has_empty_text() {
    assert_eq!(
        main_content_text("<div id=\"main-content\"></div>"),
        Ok(String::new())
    );
}

#[test]
fn only_the_first_main_content_counts() {
    assert_eq!(
        main_content_text("<p id=\"main-content\">a</p><p id=\"main-content\">b</p>"),
        Ok("a".to_string())
    );
}

#[test]
fn texts_join_with_a_separator() {
    assert_eq!(join_texts(&strings(&["a", "b", "c"]), " "), "a b c");
    assert_eq!(join_texts(&strings(&["a"]), ", "), "a");
    assert_eq!(join_texts(&vec![], " "), "");
    assert_eq!(join_texts(&strings(&["", ""]), "-"), "-");
}

#[test]
fn blank_tokens() {
    assert!(is_blank(""));
    assert!(is_blank(" "));
    assert!(is_blank(" \t\n\u{3000}"));
    assert!(!is_blank(" a "));
    assert!(!is_blank("。"));
}

#[test]
fn words_are_lower_case_and_distinct() {
    assert_eq!(
        index_words(&strings(&["Rust", " ", "rust", "は", "RUST", "", "速い", "は", "Ａ"])),
        strings(&["rust", "は", "速い", "ａ"])
    );
    assert_eq!(index_words(&vec![]), Vec::<String>::new());
    assert_eq!(index_words(&strings(&[" ", "\n"])), Vec::<String>::new());
}

#[test]
fn every_indexed_word_tests_positive() {
    let words = strings(&["今日", "も", "いい", "天気", "rust"]);
    let filter = make_bloom_filter(&words, 6, 7);
    assert_eq!(filter.filter().len(), 6);
    assert_eq!(filter.num_hash(), 7);
    for word in &words {
        assert!(filter.contains(word));
    }
    assert!(!filter.contains("明日"));
}

#[test]
fn index_does_not_depend_on_the_order_of_the_words() {
    let forth = make_bloom_filter(&strings(&["a", "b", "c"]), 4, 3);
    let back = make_bloom_filter(&strings(&["c", "b", "a"]), 4, 3);
    assert_eq!(forth.filter(), back.filter());
}

#[test]
fn index_of_no_words() {
    let filter = make_bloom_filter(&vec![], 0, 0);
    assert!(filter.filter().is_empty());
    let filter = make_bloom_filter(&vec![], 3, 2);
    assert_eq!(filter.filter(), &vec![0u8; 3]);
}
