use aes::cipher::block_padding::Pkcs7;
use aes::cipher::{BlockDecryptMut, KeyIvInit};
use base64::Engine;
use sha2::Digest;
use zakki::config::Config;
use zakki::context::{Flag, RenderingContext};
use zakki::error::{Field, RenderError};
use zakki::event::{Event, HeadingLevel, MetadataBlockKind, Tag, TagEnd};
use zakki::pass::read_header_pass::YamlHeader;
use zakki::renderer::{seal_body, Renderer};

fn config(render_draft: bool, password: Option<&str>) -> Config {
    Config::new(
        "Site".to_string(),
        render_draft,
        password.map(|text| text.to_string()),
        None,
        vec!["extra.js".to_string()],
        vec!["https://cdn/extra.css".to_string()],
    )
}

fn document() -> Vec<Event> {
    vec![
        Event::Start(Tag::MetadataBlock(MetadataBlockKind::YamlStyle)),
        Event::Text("create: 2024-01-02".to_string()),
        Event::End(TagEnd::MetadataBlock(MetadataBlockKind::YamlStyle)),
        Event::Start(Tag::Heading {
            level: HeadingLevel::H1,
            id: None,
            classes: vec![],
            attrs: vec![],
        }),
        Event::Text("Title".to_string()),
        Event::End(TagEnd::Heading(HeadingLevel::H1)),
        Event::Start(Tag::Paragraph),
        Event::Text("今日もいい天気".to_string()),
        Event::End(TagEnd::Paragraph),
    ]
}

fn header(flags: Vec<Flag>) -> YamlHeader {
    YamlHeader {
        create_date: "2024-01-02".to_string(),
        last_update_date: "2024-03-04".to_string(),
        tags: vec!["diary".to_string()],
        flags,
        password: None,
        highlights: None,
    }
}

fn decrypt(password: &str, encoded: &str) -> Vec<u8> {
    let payload = base64::prelude::BASE64_STANDARD.decode(encoded).unwrap();
    let key = sha2::Sha256::digest(password.as_bytes());
    let (iv, cipher) = payload.split_at(16);
    cbc::Decryptor::<aes::Aes256>::new_from_slices(&key, iv)
        .unwrap()
        .decrypt_padded_vec_mut::<Pkcs7>(cipher)
        .unwrap()
}

fn cipher_of(page: &str) -> &str {
    let start = page.find("data-cipher=\"").unwrap() + "data-cipher=\"".len();
    let end = start + page[start..].find('"').unwrap();
    &page[start..end]
}

#[test]
fn config_without_footer_gets_the_default_one() {
    let config = config(false, None);
    assert_eq!(config.footer(), "&copy; Site. All rights reserved.");
    assert_eq!(config.site_name(), "Site");
    assert!(!config.render_draft());
    assert_eq!(config.password(), None);
    assert_eq!(config.js_list(), &vec!["extra.js".to_string()]);
    assert_eq!(config.css_list(), &vec!["https://cdn/extra.css".to_string()]);
    let config = Config::new(
        "S".to_string(),
        true,
        Some("pw".to_string()),
        Some("<b>foot</b>".to_string()),
        vec![],
        vec![],
    );
    assert_eq!(config.footer(), "<b>foot</b>");
    assert_eq!(config.password(), Some(&"pw".to_string()));
    assert!(config.render_draft());
}

#[test]
fn context_of_a_document_starts_with_the_site_s_password_and_its_path() {
    let config = config(false, Some("site"));
    let ctxt = Renderer::new(&config).open_context("a/page.html".to_string());
    assert_eq!(ctxt.password().unwrap(), "site");
    assert_eq!(ctxt.build_root_to_dst().unwrap(), "a/page.html");
    assert!(ctxt.title().is_err());
    let config = self::config(false, None);
    let ctxt = Renderer::new(&config).open_context("page.html".to_string());
    assert_eq!(
        ctxt.password(),
        Err(RenderError::MissingRequiredField(Field::Password))
    );
}

#[test]
fn draft_is_not_rendered_unless_drafts_are_asked_for() {
    let hidden = config(false, None);
    let renderer = Renderer::new(&hidden);
    let mut ctxt = renderer.open_context("page.html".to_string());
    let out = renderer.run_passes(document(), Ok(header(vec![Flag::Draft])), &mut ctxt);
    assert_eq!(out, Ok(None));
    // no pass behind the header has run
    assert!(ctxt.title().is_err());
    assert!(ctxt.toc().is_err());

    let shown = config(true, None);
    let renderer = Renderer::new(&shown);
    let mut ctxt = renderer.open_context("page.html".to_string());
    let out = renderer
        .run_passes(document(), Ok(header(vec![Flag::Draft])), &mut ctxt)
        .unwrap();
    assert!(out.is_some());
    assert_eq!(ctxt.title().unwrap(), "Title");
    let page = renderer.body_to_html("<p>今日もいい天気</p>", &ctxt).unwrap();
    assert!(page.contains("<div id=\"main-content\"><p>今日もいい天気</p></div>"));
    let words = renderer.page_words(&page, &ctxt).unwrap();
    let record = renderer.close_context(ctxt, &words, 4, 3).unwrap();
    assert_eq!(record.title(), "Title");
    assert_eq!(record.flags(), &vec![Flag::Draft]);
}

#[test]
fn document_without_front_matter_is_not_rendered() {
    let config = config(true, None);
    let renderer = Renderer::new(&config);
    let mut ctxt = renderer.open_context("page.html".to_string());
    let events = document()[3..].to_vec();
    let out = renderer.run_passes(events, Ok(header(vec![])), &mut ctxt);
    assert!(matches!(out, Err(RenderError::HeaderParseError(_))));
    assert!(ctxt.create_date().is_err());
}

#[test]
fn unreadable_front_matter_is_an_error() {
    let config = config(true, None);
    let renderer = Renderer::new(&config);
    let mut ctxt = renderer.open_context("page.html".to_string());
    let out = renderer.run_passes(document(), Err("missing field `update`".to_string()), &mut ctxt);
    assert_eq!(
        out,
        Err(RenderError::HeaderParseError("missing field `update`".to_string()))
    );
}

#[test]
fn page_of_a_plain_document() {
    let config = config(false, None);
    let renderer = Renderer::new(&config);
    let mut ctxt = renderer.open_context("notes/2024/page.html".to_string());
    let out = renderer
        .run_passes(document(), Ok(header(vec![])), &mut ctxt)
        .unwrap()
        .unwrap();
    assert_eq!(out.len(), 9);
    ctxt.push_css_path("katex/katex.min.css".to_string());
    let page = renderer.body_to_html("<p>body</p>", &ctxt).unwrap();
    assert_eq!(
        page,
        "<!DOCTYPE html><html><head><meta charset=\"UTF-8\" /><meta name=\"viewport\" content=\"width=device-width, initial-scale=1\" /><title>Title</title>\
         <link rel=\"stylesheet\" href=\"../../style.css\" />\
         <link rel=\"stylesheet\" href=\"https://cdn/extra.css\" />\
         <link rel=\"stylesheet\" href=\"../../katex/katex.min.css\" />\
         <script defer type=\"text/javascript\" src=\"../../metadata.js\"></script>\
         <script defer type=\"text/javascript\" src=\"../../script.js\"></script>\
         <script defer type=\"text/javascript\" src=\"../../theme.js\"></script>\
         <script defer type=\"text/javascript\" src=\"../../extra.js\"></script>\
         </head><body>\
         <header><a id=\"site-name\" href=\"../../index.html\">Site</a></header><main>\
         <div id=\"byline\"><time id=\"create-date\">2024-01-02</time>\
         <time id=\"update-date\">2024-03-04</time>\
         \u{a0}<a class=\"tag\" href=\"../../index.html?tag=diary\">diary</a></div>\
         <div id=\"main-content\"><p>body</p></div></main>\
         <footer>&copy; Site. All rights reserved.</footer></body></html>"
    );
}

#[test]
fn page_at_the_root_refers_to_assets_beside_it() {
    let config = config(false, None);
    let renderer = Renderer::new(&config);
    let mut ctxt = renderer.open_context("page.html".to_string());
    renderer.run_passes(document(), Ok(header(vec![])), &mut ctxt).unwrap();
    let page = renderer.body_to_html("", &ctxt).unwrap();
    assert!(page.contains("href=\"style.css\""));
    assert!(page.contains("href=\"index.html\""));
}

#[test]
fn encrypted_page_does_not_show_its_body() {
    let config = config(false, Some("site password"));
    let renderer = Renderer::new(&config);
    let mut ctxt = renderer.open_context("secret/page.html".to_string());
    renderer
        .run_passes(document(), Ok(header(vec![Flag::Crypto])), &mut ctxt)
        .unwrap();
    let body = "<p>今日もいい天気: a body that nobody may read</p>";
    let page = renderer.body_to_html(body, &ctxt).unwrap();
    assert!(!page.contains(body));
    assert!(!page.contains("main-content"));
    assert!(page.contains("<title>Title</title>"));
    assert_eq!(decrypt("site password", cipher_of(&page)), body.as_bytes());
}

#[test]
fn password_of_the_document_goes_before_the_site_s() {
    let config = config(false, Some("site"));
    let renderer = Renderer::new(&config);
    let mut ctxt = renderer.open_context("page.html".to_string());
    let yaml = YamlHeader { password: Some("own".to_string()), ..header(vec![Flag::Crypto]) };
    renderer.run_passes(document(), Ok(yaml), &mut ctxt).unwrap();
    let page = renderer.body_to_html("body", &ctxt).unwrap();
    assert_eq!(decrypt("own", cipher_of(&page)), b"body");
}

#[test]
fn encrypted_page_without_password_is_an_error() {
    let config = config(false, None);
    let renderer = Renderer::new(&config);
    let mut ctxt = renderer.open_context("page.html".to_string());
    renderer
        .run_passes(document(), Ok(header(vec![Flag::Crypto])), &mut ctxt)
        .unwrap();
    assert_eq!(
        renderer.body_to_html("body", &ctxt),
        Err(RenderError::MissingPasswordConfig)
    );
}

#[test]
fn page_needs_the_fields_it_shows() {
    let config = config(false, None);
    let renderer = Renderer::new(&config);
    let mut ctxt = RenderingContext::new();
    let missing = |field| Err(RenderError::MissingRequiredField(field));
    assert_eq!(renderer.body_to_html("", &ctxt), missing(Field::BuildRootToDst));
    ctxt.set_build_root_to_dst("p.html".to_string());
    assert_eq!(renderer.body_to_html("", &ctxt), missing(Field::Flags));
    ctxt.set_flags(vec![]);
    assert_eq!(renderer.body_to_html("", &ctxt), missing(Field::Title));
    ctxt.set_title("t".to_string());
    assert_eq!(renderer.body_to_html("", &ctxt), missing(Field::CreateDate));
    ctxt.set_create_date("c".to_string());
    assert_eq!(renderer.body_to_html("", &ctxt), missing(Field::LastUpdateDate));
    ctxt.set_last_update_date("u".to_string());
    assert_eq!(renderer.body_to_html("", &ctxt), missing(Field::Tags));
    ctxt.set_tags(vec![]);
    assert!(renderer.body_to_html("", &ctxt).is_ok());
}

#[test]
fn sealed_body_decrypts_to_the_body() {
    let encoded = seal_body("pw", "body text");
    assert_eq!(decrypt("pw", &encoded), b"body text");
    assert_ne!(encoded, "body text");
}

#[test]
fn words_of_a_page() {
    let config = config(false, None);
    let renderer = Renderer::new(&config);
    let mut ctxt = renderer.open_context("page.html".to_string());
    assert_eq!(
        renderer.page_words("", &ctxt),
        Err(RenderError::MissingRequiredField(Field::Flags))
    );
    renderer.run_passes(document(), Ok(header(vec![])), &mut ctxt).unwrap();
    let page = renderer
        .body_to_html("<h1>Title</h1><p>今日もいい天気 Rust rust</p>", &ctxt)
        .unwrap();
    let words = renderer.page_words(&page, &ctxt).unwrap();
    assert_eq!(words, vec!["title", "今日", "も", "いい", "天気", "rust"]);
    assert_eq!(
        renderer.page_words("<p>no main content</p>", &ctxt),
        Err(RenderError::MissingMainContent)
    );
}

#[test]
fn encrypted_page_has_no_words_and_an_empty_index() {
    let config = config(false, Some("pw"));
    let renderer = Renderer::new(&config);
    let mut ctxt = renderer.open_context("page.html".to_string());
    renderer
        .run_passes(document(), Ok(header(vec![Flag::Crypto])), &mut ctxt)
        .unwrap();
    let page = renderer.body_to_html("<p>secret words</p>", &ctxt).unwrap();
    assert_eq!(renderer.page_words(&page, &ctxt), Ok(vec![]));
    // whatever words and size are handed in, the index stays empty
    let record = renderer
        .close_context(ctxt, &vec!["secret".to_string()], 30, 7)
        .unwrap();
    assert!(record.bloom_filter().filter().is_empty());
    assert_eq!(record.bloom_filter().num_hash(), 0);
    assert!(record.crypto());
}

#[test]
fn record_of_a_plain_page_holds_its_index() {
    let config = config(false, None);
    let renderer = Renderer::new(&config);
    let mut ctxt = renderer.open_context("a/page.html".to_string());
    renderer.run_passes(document(), Ok(header(vec![])), &mut ctxt).unwrap();
    let words = vec!["今日".to_string(), "天気".to_string()];
    let record = renderer.close_context(ctxt, &words, 3, 7).unwrap();
    assert_eq!(record.dst_path(), "a/page.html");
    assert_eq!(record.create_date(), "2024-01-02");
    assert_eq!(record.update(), "2024-03-04");
    assert_eq!(record.tags(), &vec!["diary".to_string()]);
    assert_eq!(record.bloom_filter().filter().len(), 3);
    assert_eq!(record.bloom_filter().num_hash(), 7);
    assert!(record.bloom_filter().contains("今日"));
    assert!(record.bloom_filter().contains("天気"));
}

#[test]
fn record_needs_the_flags_first() {
    let config = config(false, None);
    let renderer = Renderer::new(&config);
    let ctxt = RenderingContext::new();
    assert_eq!(
        renderer.close_context(ctxt, &vec![], 0, 0).err(),
        Some(RenderError::MissingRequiredField(Field::Flags))
    );
    let mut ctxt = RenderingContext::new();
    ctxt.set_flags(vec![]);
    assert_eq!(
        renderer.close_context(ctxt, &vec![], 0, 0).err(),
        Some(RenderError::MissingRequiredField(Field::CreateDate))
    );
}

#[test]
fn index_page_of_the_site() {
    let config = config(false, None);
    let page = Renderer::new(&config).render_index();
    assert!(page.starts_with("<!DOCTYPE html><html><head>"));
    assert!(page.contains("<title>Site</title>"));
    assert!(page.contains("<link rel=\"stylesheet\" href=\"./style.css\" />"));
    assert!(page.contains("<link rel=\"stylesheet\" href=\"https://cdn/extra.css\" />"));
    assert!(page.contains("src=\"./extra.js\""));
    assert!(page.ends_with("<footer>&copy; Site. All rights reserved.</footer></body></html>"));
}

#[test]
fn default_assets_of_the_site() {
    let config = config(false, None);
    let renderer = Renderer::new(&config);
    assert_eq!(renderer.default_css_list(), vec!["style.css"]);
    assert_eq!(renderer.default_js_list(), vec!["metadata.js", "script.js", "theme.js"]);
}
