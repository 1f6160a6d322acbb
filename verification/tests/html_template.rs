use zakki::html_template::{
    adjust_path_origin, crypto_html, head, header, index_html, page_html, tag_elems,
};

const HEAD_OPEN: &str = "<head><meta charset=\"UTF-8\" /><meta name=\"viewport\" content=\"width=device-width, initial-scale=1\" /><title>";

fn strings(items: &[&str]) -> Vec<String> {
    items.iter().map(|item| item.to_string()).collect()
}

#[test]
fn asset_paths_are_seen_from_the_root() {
    assert_eq!(adjust_path_origin("style.css", "../.."), "../../style.css");
    assert_eq!(adjust_path_origin("style.css", ""), "style.css");
    assert_eq!(adjust_path_origin("style.css", "."), "./style.css");
    assert_eq!(adjust_path_origin("https://cdn/x.js", ".."), "https://cdn/x.js");
    assert_eq!(adjust_path_origin("http://cdn/x.js", ".."), "http://cdn/x.js");
    assert_eq!(adjust_path_origin("/abs/x.js", ".."), "/abs/x.js");
}

#[test]
fn head_lists_stylesheets_then_scripts() {
    assert_eq!(
        head("..", &strings(&["style.css", "https://cdn/k.css"]), &strings(&["script.js"]), "T"),
        format!(
            "{HEAD_OPEN}T</title>\
             <link rel=\"stylesheet\" href=\"../style.css\" />\
             <link rel=\"stylesheet\" href=\"https://cdn/k.css\" />\
             <script defer type=\"text/javascript\" src=\"../script.js\"></script>\
             </head>"
        )
    );
    assert_eq!(head("", &vec![], &vec![], ""), format!("{HEAD_OPEN}</title></head>"));
}

#[test]
fn header_links_the_index() {
    assert_eq!(
        header("..", "My site"),
        "<header><a id=\"site-name\" href=\"../index.html\">My site</a></header>"
    );
    assert_eq!(
        header("", "S"),
        "<header><a id=\"site-name\" href=\"index.html\">S</a></header>"
    );
}

#[test]
fn tags_link_the_filtered_index() {
    assert_eq!(tag_elems(&vec![], ".."), "");
    assert_eq!(
        tag_elems(&strings(&["rust", "日記"]), ".."),
        "\u{a0}<a class=\"tag\" href=\"../index.html?tag=rust\">rust</a>\
         \u{a0}<a class=\"tag\" href=\"../index.html?tag=日記\">日記</a>"
    );
}

#[test]
fn index_page() {
    assert_eq!(
        index_html("S", &strings(&["style.css"]), &strings(&["metadata.js"]), "foot"),
        format!(
            "<!DOCTYPE html><html>{HEAD_OPEN}S</title>\
             <link rel=\"stylesheet\" href=\"./style.css\" />\
             <script defer type=\"text/javascript\" src=\"./metadata.js\"></script>\
             </head><body>\
             <header><a id=\"site-name\" href=\"./index.html\">S</a></header>\
             <main id=\"page-list\"></main><footer>foot</footer></body></html>"
        )
    );
}

#[test]
fn page_of_a_document() {
    assert_eq!(
        page_html(
            "..",
            "S",
            "T",
            "2024-01-02",
            "2024-03-04",
            &strings(&["style.css"]),
            &vec![],
            &strings(&["a"]),
            "<p>body</p>",
            "foot",
        ),
        format!(
            "<!DOCTYPE html><html>{HEAD_OPEN}T</title>\
             <link rel=\"stylesheet\" href=\"../style.css\" /></head><body>\
             <header><a id=\"site-name\" href=\"../index.html\">S</a></header><main>\
             <div id=\"byline\"><time id=\"create-date\">2024-01-02</time>\
             <time id=\"update-date\">2024-03-04</time>\
             \u{a0}<a class=\"tag\" href=\"../index.html?tag=a\">a</a></div>\
             <div id=\"main-content\"><p>body</p></div></main>\
             <footer>foot</footer></body></html>"
        )
    );
}

#[test]
fn page_of_an_encrypted_document() {
    assert_eq!(
        crypto_html("", "S", "T", "c", "u", &vec![], &vec![], &vec![], "QUJD", "foot"),
        format!(
            "<!DOCTYPE html><html>{HEAD_OPEN}T</title></head><body>\
             <header><a id=\"site-name\" href=\"index.html\">S</a></header><main>\
             <div id=\"byline\"><time id=\"create-date\">c</time>\
             <time id=\"update-date\">u</time></div>\
             <div id=\"encrypted-content\" data-cipher=\"QUJD\"></div></main>\
             <footer>foot</footer></body></html>"
        )
    );
}
